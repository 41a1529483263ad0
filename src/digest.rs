use vstd::prelude::*;
use vstd::slice::slice_subrange;
use vstd::string::StringExecFns;

verus! {

#[verifier::external_type_specification]
#[verifier::external_body]
pub struct ExContext(md5::Context);

/// The bytes a `md5::Context` has consumed so far, in order.
pub uninterp spec fn consumed(c: md5::Context) -> Seq<u8>;

/// The MD5 digest of `bytes`, as a 128-bit big-endian number.
pub uninterp spec fn md5_of(bytes: Seq<u8>) -> u128;

/// Relies on md5::Context::new: a fresh context has consumed nothing.
#[verifier::external_body]
fn new_context() -> (c: md5::Context)
    ensures
        consumed(c) == Seq::<u8>::empty(),
{
    md5::Context::new()
}

/// Relies on md5::Context::consume: the data is appended to what was consumed.
#[verifier::external_body]
fn consume(c: &mut md5::Context, data: &[u8])
    ensures
        consumed(*final(c)) == consumed(*old(c)) + data@,
{
    c.consume(data)
}

/// Relies on md5::Context::compute: the digest of everything consumed.
#[verifier::external_body]
fn compute(c: md5::Context) -> (d: u128)
    ensures
        d == md5_of(consumed(c)),
{
    u128::from_be_bytes(c.compute().0)
}

/// A pass-through byte sink: whatever its writer accepts is also fed into a
/// running MD5 digest, so the digest covers exactly the bytes that were stored.
pub struct Md5Filter<W> {
    pub writer: W,
    context: md5::Context,
    stored: Ghost<Seq<u8>>,
}

impl<W> Md5Filter<W> {
    /// The bytes the writer has accepted so far, in order.
    pub closed spec fn stored(&self) -> Seq<u8> {
        self.stored@
    }

    /// The wrapped writer.
    pub closed spec fn inner(&self) -> W {
        self.writer
    }

    pub closed spec fn wf(&self) -> bool {
        consumed(self.context) == self.stored@
    }

    pub fn new(writer: W) -> (r: Self)
        ensures
            r.wf(),
            r.stored() == Seq::<u8>::empty(),
            r.inner() == writer,
    {
        Md5Filter { writer, context: new_context(), stored: Ghost(Seq::empty()) }
    }

    /// Records that the writer accepted the first `accepted` bytes of `buf`;
    /// only those bytes reach the digest.
    pub fn record_accepted(&mut self, buf: &[u8], accepted: usize)
        requires
            old(self).wf(),
            accepted <= buf@.len(),
        ensures
            final(self).wf(),
            final(self).stored() == old(self).stored() + buf@.subrange(0, accepted as int),
            final(self).inner() == old(self).inner(),
    {
        let part = slice_subrange(buf, 0, accepted);
        consume(&mut self.context, part);
        self.stored = Ghost(self.stored@ + part@);
    }

    /// The MD5 digest of every byte the writer accepted, however the writes
    /// were split into chunks.
    pub fn compute_digest(self) -> (d: u128)
        requires
            self.wf(),
        ensures
            d == md5_of(self.stored()),
    {
        compute(self.context)
    }
}

/// The lower-case hexadecimal digit for `v`, which is below 16.
pub open spec fn hex_char(v: nat) -> char {
    if v == 0 { '0' } else if v == 1 { '1' } else if v == 2 { '2' } else if v == 3 { '3' }
    else if v == 4 { '4' } else if v == 5 { '5' } else if v == 6 { '6' } else if v == 7 { '7' }
    else if v == 8 { '8' } else if v == 9 { '9' } else if v == 10 { 'a' } else if v == 11 { 'b' }
    else if v == 12 { 'c' } else if v == 13 { 'd' } else if v == 14 { 'e' } else { 'f' }
}

/// The last `n` hexadecimal digits of `d`, most significant first.
pub open spec fn hex_digits(d: nat, n: nat) -> Seq<char>
    decreases n,
{
    if n == 0 {
        Seq::empty()
    } else {
        hex_digits(d / 16, (n - 1) as nat).push(hex_char(d % 16))
    }
}

/// A digest written as 32 lower-case hexadecimal digits.
pub open spec fn hex_of(d: u128) -> Seq<char> {
    hex_digits(d as nat, 32)
}

fn hex_digit(v: u128) -> (r: &'static str)
    requires
        v < 16,
    ensures
        r@ == seq![hex_char(v as nat)],
{
    proof {
        reveal_strlit("0"); reveal_strlit("1"); reveal_strlit("2"); reveal_strlit("3");
        reveal_strlit("4"); reveal_strlit("5"); reveal_strlit("6"); reveal_strlit("7");
        reveal_strlit("8"); reveal_strlit("9"); reveal_strlit("a"); reveal_strlit("b");
        reveal_strlit("c"); reveal_strlit("d"); reveal_strlit("e"); reveal_strlit("f");
    }
    if v == 0 { "0" } else if v == 1 { "1" } else if v == 2 { "2" } else if v == 3 { "3" }
    else if v == 4 { "4" } else if v == 5 { "5" } else if v == 6 { "6" } else if v == 7 { "7" }
    else if v == 8 { "8" } else if v == 9 { "9" } else if v == 10 { "a" } else if v == 11 { "b" }
    else if v == 12 { "c" } else if v == 13 { "d" } else if v == 14 { "e" } else { "f" }
}

/// Writes a digest as 32 lower-case hexadecimal digits.
pub fn to_hex(d: u128) -> (r: String)
    ensures
        r@ == hex_of(d),
{
    let mut acc = String::new();
    let mut rest: u128 = d;
    let mut k: usize = 0;
    while k < 32
        invariant
            k <= 32,
            hex_of(d) == hex_digits(rest as nat, (32 - k) as nat) + acc@,
        decreases 32 - k,
    {
        let ghost before = acc@;
        let digit = hex_digit(rest % 16);
        acc = String::from_str(digit).concat(acc.as_str());
        proof {
            assert(hex_digits(rest as nat, (32 - k) as nat) == hex_digits(
                (rest / 16) as nat,
                (32 - k - 1) as nat,
            ).push(hex_char((rest % 16) as nat)));
            assert(hex_digits((rest / 16) as nat, (32 - k - 1) as nat).push(
                hex_char((rest % 16) as nat),
            ) + before =~= hex_digits((rest / 16) as nat, (32 - k - 1) as nat) + acc@);
        }
        rest = rest / 16;
        k = k + 1;
    }
    assert(hex_of(d) =~= acc@);
    acc
}

} // verus!
