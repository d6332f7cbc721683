use vstd::prelude::*;
use vstd::std_specs::cmp::PartialOrdSpec;
use vstd::std_specs::convert::FromSpec;
use vstd::string::StringExecFns;
use core::cmp::Ordering;

verus! {

/// An OS thread identity. The raw value `0` is the "no thread" sentinel:
/// a hook owned by no thread observes events system-wide. Every nonzero
/// raw value names a concrete thread.
///
/// Identities are plain comparable values: freely copyable, never an owned
/// resource. The total order puts the none identity below every concrete
/// id and orders concrete ids by raw value.
#[derive(Clone, Copy, PartialEq, Eq, Structural, Hash, Debug)]
pub struct ThreadId {
    /// The raw OS thread id; `0` stands for "no thread".
    pub value: u32,
}

impl ThreadId {
    /// The thread identity that names no thread, as a spec value.
    pub open spec fn spec_none() -> ThreadId {
        ThreadId { value: 0 }
    }

    /// The thread identity that names no thread (raw value `0`).
    pub fn none() -> (r: ThreadId)
        ensures
            r == ThreadId::spec_none(),
    {
        ThreadId { value: 0 }
    }

    /// True exactly when this identity names no thread.
    pub open spec fn spec_is_none(&self) -> bool {
        self.value == 0
    }

    /// The raw id as an optional value: `None` for the none identity,
    /// `Some` of the raw id otherwise.
    pub open spec fn spec_as_raw_option(&self) -> Option<u32> {
        if self.value == 0 {
            None
        } else {
            Some(self.value)
        }
    }

    /// Returns `true` if the thread id is none, `false` otherwise.
    pub fn is_none(&self) -> (r: bool)
        ensures
            r == self.spec_is_none(),
    {
        self.value == 0
    }

    /// Returns the thread id as a raw value; `0` for the none identity.
    pub fn raw(&self) -> (r: u32)
        ensures
            r == self.value,
    {
        self.value
    }

    /// Returns the thread id as an optional raw value.
    pub fn as_raw_option(&self) -> (r: Option<u32>)
        ensures
            r == self.spec_as_raw_option(),
    {
        if self.value == 0 {
            None
        } else {
            Some(self.value)
        }
    }

    /// The decimal rendering of the raw id.
    pub fn display_string(&self) -> (r: String)
        ensures
            r@ == dec_chars(self.value as nat),
    {
        u32_to_decimal(self.value)
    }
}

impl From<u32> for ThreadId {
    /// Wraps a raw id; `0` yields the none identity.
    fn from(id: u32) -> (r: ThreadId)
        ensures
            r == (ThreadId { value: id }),
    {
        ThreadId { value: id }
    }
}

impl vstd::std_specs::convert::FromSpecImpl<u32> for ThreadId {
    open spec fn obeys_from_spec() -> bool {
        true
    }

    open spec fn from_spec(v: u32) -> ThreadId {
        ThreadId { value: v }
    }
}

impl PartialOrd for ThreadId {
    /// Orders by raw value, which puts the none identity lowest.
    fn partial_cmp(&self, other: &ThreadId) -> (r: Option<Ordering>) {
        if self.value < other.value {
            Some(Ordering::Less)
        } else if self.value == other.value {
            Some(Ordering::Equal)
        } else {
            Some(Ordering::Greater)
        }
    }
}

impl vstd::std_specs::cmp::PartialOrdSpecImpl for ThreadId {
    open spec fn obeys_partial_cmp_spec() -> bool {
        true
    }

    open spec fn partial_cmp_spec(&self, other: &ThreadId) -> Option<Ordering> {
        if self.value < other.value {
            Some(Ordering::Less)
        } else if self.value == other.value {
            Some(Ordering::Equal)
        } else {
            Some(Ordering::Greater)
        }
    }
}

/// The character for one decimal digit.
pub open spec fn dec_digit_char(d: nat) -> char {
    if d == 0 {
        '0'
    } else if d == 1 {
        '1'
    } else if d == 2 {
        '2'
    } else if d == 3 {
        '3'
    } else if d == 4 {
        '4'
    } else if d == 5 {
        '5'
    } else if d == 6 {
        '6'
    } else if d == 7 {
        '7'
    } else if d == 8 {
        '8'
    } else {
        '9'
    }
}

/// The decimal rendering of a natural number, most significant digit first.
pub open spec fn dec_chars(n: nat) -> Seq<char>
    decreases n,
{
    if n < 10 {
        seq![dec_digit_char(n)]
    } else {
        dec_chars(n / 10) + seq![dec_digit_char(n % 10)]
    }
}

/// One decimal digit as a string slice.
fn digit_str(d: u32) -> (r: &'static str)
    requires
        d < 10,
    ensures
        r@ == seq![dec_digit_char(d as nat)],
{
    proof {
        reveal_strlit("0");
        reveal_strlit("1");
        reveal_strlit("2");
        reveal_strlit("3");
        reveal_strlit("4");
        reveal_strlit("5");
        reveal_strlit("6");
        reveal_strlit("7");
        reveal_strlit("8");
        reveal_strlit("9");
    }
    let r: &'static str = if d == 0 {
        "0"
    } else if d == 1 {
        "1"
    } else if d == 2 {
        "2"
    } else if d == 3 {
        "3"
    } else if d == 4 {
        "4"
    } else if d == 5 {
        "5"
    } else if d == 6 {
        "6"
    } else if d == 7 {
        "7"
    } else if d == 8 {
        "8"
    } else {
        "9"
    };
    proof {
        assert(r@ =~= seq![dec_digit_char(d as nat)]);
    }
    r
}

/// Appends the decimal rendering of `n` to `out`.
fn push_decimal(n: u32, out: &mut String)
    ensures
        final(out)@ == old(out)@ + dec_chars(n as nat),
    decreases n,
{
    if n >= 10 {
        push_decimal(n / 10, out);
    }
    let d = digit_str(n % 10);
    out.append(d);
    proof {
        if n >= 10 {
            assert(dec_chars(n as nat) == dec_chars(n as nat / 10) + seq![
                dec_digit_char(n as nat % 10),
            ]);
        }
        assert(out@ =~= old(out)@ + dec_chars(n as nat));
    }
}

/// The decimal rendering of a 32-bit value as an owned string.
fn u32_to_decimal(n: u32) -> (r: String)
    ensures
        r@ == dec_chars(n as nat),
{
    let mut out = String::from_str("");
    proof {
        reveal_strlit("");
    }
    push_decimal(n, &mut out);
    proof {
        assert(out@ =~= dec_chars(n as nat));
    }
    out
}

/// Wrapping a raw id loses nothing: zero becomes the none identity and a
/// nonzero id round-trips through the raw and optional views.
pub proof fn lemma_from_round_trip(n: u32)
    ensures
        ThreadId::from_spec(0u32) == ThreadId::spec_none(),
        ThreadId::from_spec(n).value == n,
        n > 0 ==> !ThreadId::from_spec(n).spec_is_none(),
        n > 0 ==> ThreadId::from_spec(n).spec_as_raw_option() == Some(n),
        n == 0 ==> ThreadId::from_spec(n).spec_is_none(),
{
}

/// The none identity sorts below every concrete id, and concrete ids order
/// by raw value.
pub proof fn lemma_order_by_raw(a: ThreadId, b: ThreadId)
    ensures
        (a.partial_cmp_spec(&b) == Some(Ordering::Less)) <==> a.value < b.value,
        (a.partial_cmp_spec(&b) == Some(Ordering::Equal)) <==> a == b,
        a.spec_is_none() && !b.spec_is_none() ==> a.partial_cmp_spec(&b) == Some(Ordering::Less),
{
}

} // verus!
