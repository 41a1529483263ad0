use vstd::prelude::*;
use vstd::string::StringExecFns;

use crate::digest::{hex_of, to_hex};
use crate::error::Error;

verus! {

/// A child of a folder, as the remote service describes it.
pub enum Entry {
    /// A file: its name, its download link, and the MD5 digest the service declares.
    File { name: String, link: String, md5: u128 },
    Folder { name: String },
}

/// A resource that a UUID or a code resolves to.
pub enum Listing {
    File { name: String },
    /// A folder; its children may be absent.
    Folder { name: String, children: Option<Vec<Entry>> },
}

/// One file to fetch: its link, the name to store it under, and the digest it must have.
pub struct Transfer {
    pub link: String,
    pub name: String,
    pub expected: u128,
}

/// Walks the children of a folder in order, handing out one transfer per
/// file and stopping at the first child that is itself a folder.
pub struct Walker {
    children: Vec<Entry>,
    next: usize,
}

impl Walker {
    pub closed spec fn children(&self) -> Seq<Entry> {
        self.children@
    }

    /// How many children have been handed out.
    pub closed spec fn position(&self) -> nat {
        self.next as nat
    }

    pub closed spec fn wf(&self) -> bool {
        &&& self.next <= self.children.len()
        &&& forall|j: int| 0 <= j < self.next ==> #[trigger] self.children@[j] is File
    }

    /// A walk never gets past a child that is a folder: every child before
    /// its position is a file, so no child after a nested folder is fetched.
    pub proof fn lemma_never_past_folder(&self)
        requires
            self.wf(),
        ensures
            forall|j: int| 0 <= j < self.position() ==> #[trigger] self.children()[j] is File,
            forall|j: int|
                0 <= j < self.children().len() && #[trigger] self.children()[j] is Folder
                    ==> self.position() <= j,
    {
    }

    /// Starts a walk over a listing. A bare file is refused, and so is a
    /// folder whose children are absent or empty.
    pub fn new(listing: Listing) -> (r: Result<Walker, Error>)
        ensures
            match listing {
                Listing::File { name } => r matches Err(Error::InvalidTopLevelFile(n)) && n == name,
                Listing::Folder { children: None, .. } => r matches Err(Error::NoContent),
                Listing::Folder { children: Some(c), .. } => if c.len() == 0 {
                    r matches Err(Error::NoContent)
                } else {
                    r matches Ok(w) && w.wf() && w.children() == c@ && w.position() == 0
                },
            },
    {
        match listing {
            Listing::File { name } => Err(Error::InvalidTopLevelFile(name)),
            Listing::Folder { children, .. } => match children {
                None => Err(Error::NoContent),
                Some(c) => {
                    if c.len() == 0 {
                        Err(Error::NoContent)
                    } else {
                        Ok(Walker { children: c, next: 0 })
                    }
                },
            },
        }
    }

    /// The next child to fetch: `None` once every child has been handed out,
    /// and an error, without moving on, where the next child is a folder.
    pub fn next_transfer(&mut self) -> (r: Result<Option<Transfer>, Error>)
        requires
            old(self).wf(),
        ensures
            final(self).wf(),
            final(self).children() == old(self).children(),
            old(self).position() == old(self).children().len() ==> (r matches Ok(None)
                && final(self).position() == old(self).position()),
            old(self).position() < old(self).children().len() ==> match old(self).children()[old(
                self,
            ).position() as int] {
                Entry::Folder { .. } => r matches Err(Error::NotImplementedForSubdir)
                    && final(self).position() == old(self).position(),
                Entry::File { name, link, md5 } => r matches Ok(Some(t)) && t.name@ == name@
                    && t.link@ == link@ && t.expected == md5 && final(self).position() == old(
                    self,
                ).position() + 1,
            },
    {
        if self.next == self.children.len() {
            return Ok(None);
        }
        let i = self.next;
        match &self.children[i] {
            Entry::Folder { .. } => Err(Error::NotImplementedForSubdir),
            Entry::File { name, link, md5 } => {
                let t = Transfer {
                    link: String::from_str(link.as_str()),
                    name: String::from_str(name.as_str()),
                    expected: *md5,
                };
                self.next = i + 1;
                Ok(Some(t))
            },
        }
    }
}

/// Compares the digest of the stored bytes with the one the service declared.
/// A mismatch names both, in hexadecimal, expected first.
pub fn check_digest(expected: u128, actual: u128) -> (r: Result<(), Error>)
    ensures
        expected == actual ==> r is Ok,
        expected != actual ==> (r matches Err(Error::Md5DigestMismatched(m)) && m@ == hex_of(
            expected,
        ) + " != "@ + hex_of(actual)),
{
    if expected == actual {
        return Ok(());
    }
    let message = to_hex(expected).concat(" != ").concat(to_hex(actual).as_str());
    Err(Error::Md5DigestMismatched(message))
}

} // verus!
