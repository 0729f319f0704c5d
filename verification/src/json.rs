use vstd::prelude::*;
use vstd::string::*;

verus! {

// Responses are built as UTF-8 byte vectors. Every builder below appends
// exactly the bytes its specification function describes, so the contract
// of each response-producing function pins the serialized payload down to
// the byte.

/// The decimal digits of `n`, most significant first.
pub open spec fn spec_decimal(n: nat) -> Seq<u8>
    decreases n,
{
    if n < 10 {
        seq![(48 + n) as u8]
    } else {
        spec_decimal(n / 10).push((48 + (n % 10)) as u8)
    }
}

/// The lower-case hexadecimal digit with value `n`.
pub open spec fn spec_hex_digit(n: u8) -> u8 {
    if n < 10 {
        (48 + n) as u8
    } else {
        (87 + n) as u8
    }
}

/// How one byte of a string appears inside a JSON string literal: the
/// quote and the backslash get a backslash escape, control bytes get a
/// `\u00XY` escape, and every other byte stands for itself.
pub open spec fn spec_escaped_byte(b: u8) -> Seq<u8> {
    if b == 34 {
        seq![92u8, 34u8]
    } else if b == 92 {
        seq![92u8, 92u8]
    } else if b < 32 {
        seq![92u8, 117u8, 48u8, 48u8, spec_hex_digit(b / 16), spec_hex_digit(b % 16)]
    } else {
        seq![b]
    }
}

/// A byte string with every byte escaped as JSON requires.
pub open spec fn spec_escaped(s: Seq<u8>) -> Seq<u8>
    decreases s.len(),
{
    if s.len() == 0 {
        Seq::empty()
    } else {
        spec_escaped(s.drop_last()) + spec_escaped_byte(s.last())
    }
}

/// A JSON string literal holding the (UTF-8) byte string `s`.
pub open spec fn spec_json_string(s: Seq<u8>) -> Seq<u8> {
    seq![34u8] + spec_escaped(s) + seq![34u8]
}

/// The comma-separated decimal items of a JSON array of byte values.
pub open spec fn spec_array_items(s: Seq<u8>) -> Seq<u8>
    decreases s.len(),
{
    if s.len() == 0 {
        Seq::empty()
    } else if s.len() == 1 {
        spec_decimal(s[0] as nat)
    } else {
        spec_array_items(s.drop_last()) + seq![44u8] + spec_decimal(s.last() as nat)
    }
}

/// A JSON array holding the byte values of `s` as numbers.
pub open spec fn spec_byte_array(s: Seq<u8>) -> Seq<u8> {
    seq![91u8] + spec_array_items(s) + seq![93u8]
}

/// A JSON boolean.
pub open spec fn spec_bool_json(b: bool) -> Seq<u8> {
    if b {
        ("true").spec_bytes()
    } else {
        ("false").spec_bytes()
    }
}

/// Append the bytes of a string slice.
pub fn push_lit(out: &mut Vec<u8>, s: &str)
    ensures
        final(out)@ == old(out)@ + s.spec_bytes(),
{
    let mut bytes = s.as_bytes_vec();
    out.append(&mut bytes);
}

/// Append the decimal rendering of `n`.
pub fn push_decimal(out: &mut Vec<u8>, n: u64)
    ensures
        final(out)@ == old(out)@ + spec_decimal(n as nat),
    decreases n,
{
    if n >= 10 {
        push_decimal(out, n / 10);
    }
    out.push(48 + (n % 10) as u8);
    proof {
        assert(out@ =~= old(out)@ + spec_decimal(n as nat));
    }
}

/// Append one lower-case hexadecimal digit.
fn push_hex_digit(out: &mut Vec<u8>, n: u8)
    requires
        n < 16,
    ensures
        final(out)@ == old(out)@ + seq![spec_hex_digit(n)],
{
    if n < 10 {
        out.push(48 + n);
    } else {
        out.push(87 + n);
    }
    proof {
        assert(out@ =~= old(out)@ + seq![spec_hex_digit(n)]);
    }
}

/// Append a JSON string literal holding the bytes of `s`.
pub fn push_json_str(out: &mut Vec<u8>, s: &str)
    ensures
        final(out)@ == old(out)@ + spec_json_string(s.spec_bytes()),
{
    let bytes = s.as_bytes_vec();
    out.push(34);
    proof {
        assert(bytes@.take(0) =~= Seq::<u8>::empty());
        assert(out@ =~= old(out)@ + seq![34u8] + spec_escaped(bytes@.take(0)));
    }
    let n = bytes.len();
    let mut i: usize = 0;
    while i < n
        invariant
            n == bytes@.len(),
            i <= n,
            bytes@ == s.spec_bytes(),
            out@ == old(out)@ + seq![34u8] + spec_escaped(bytes@.take(i as int)),
        decreases n - i,
    {
        let ghost pre = out@;
        let b = bytes[i];
        if b == 34 {
            out.push(92);
            out.push(34);
        } else if b == 92 {
            out.push(92);
            out.push(92);
        } else if b < 32 {
            out.push(92);
            out.push(117);
            out.push(48);
            out.push(48);
            push_hex_digit(out, b / 16);
            push_hex_digit(out, b % 16);
        } else {
            out.push(b);
        }
        proof {
            let t = bytes@.take(i as int + 1);
            assert(out@ =~= pre + spec_escaped_byte(b));
            assert(t.len() == i + 1);
            assert(t.drop_last() =~= bytes@.take(i as int));
            assert(t.last() == b);
            assert(spec_escaped(t) == spec_escaped(bytes@.take(i as int)) + spec_escaped_byte(b));
            assert(out@ =~= old(out)@ + seq![34u8] + spec_escaped(t));
        }
        i += 1;
    }
    out.push(34);
    proof {
        assert(bytes@.take(n as int) =~= bytes@);
        assert(out@ =~= old(out)@ + spec_json_string(s.spec_bytes()));
    }
}

/// Append a JSON array holding the byte values of `v` as numbers.
pub fn push_byte_array(out: &mut Vec<u8>, v: &Vec<u8>)
    ensures
        final(out)@ == old(out)@ + spec_byte_array(v@),
{
    out.push(91);
    proof {
        assert(v@.take(0) =~= Seq::<u8>::empty());
        assert(out@ =~= old(out)@ + seq![91u8] + spec_array_items(v@.take(0)));
    }
    let n = v.len();
    let mut i: usize = 0;
    while i < n
        invariant
            n == v@.len(),
            i <= n,
            out@ == old(out)@ + seq![91u8] + spec_array_items(v@.take(i as int)),
        decreases n - i,
    {
        if i > 0 {
            out.push(44);
        }
        push_decimal(out, v[i] as u64);
        proof {
            let t = v@.take(i as int + 1);
            assert(t.len() == i + 1);
            if i == 0 {
                assert(t[0] == v@[0]);
                assert(spec_array_items(t) == spec_decimal(v@[0] as nat));
            } else {
                assert(t.drop_last() =~= v@.take(i as int));
                assert(t.last() == v@[i as int]);
                assert(spec_array_items(t) == spec_array_items(v@.take(i as int)) + seq![44u8]
                    + spec_decimal(v@[i as int] as nat));
            }
            assert(out@ =~= old(out)@ + seq![91u8] + spec_array_items(t));
        }
        i += 1;
    }
    out.push(93);
    proof {
        assert(v@.take(n as int) =~= v@);
        assert(out@ =~= old(out)@ + spec_byte_array(v@));
    }
}

/// Whether two byte vectors hold the same bytes.
pub fn bytes_eq(a: &Vec<u8>, b: &Vec<u8>) -> (r: bool)
    ensures
        r == (a@ == b@),
{
    if a.len() != b.len() {
        return false;
    }
    let mut i: usize = 0;
    while i < a.len()
        invariant
            i <= a@.len(),
            a@.len() == b@.len(),
            forall|j: int| 0 <= j < i ==> a@[j] == b@[j],
        decreases a@.len() - i,
    {
        if a[i] != b[i] {
            return false;
        }
        i += 1;
    }
    proof {
        assert(a@ =~= b@);
    }
    true
}

/// Append `true` or `false`.
pub fn push_bool(out: &mut Vec<u8>, b: bool)
    ensures
        final(out)@ == old(out)@ + spec_bool_json(b),
{
    if b {
        push_lit(out, "true");
    } else {
        push_lit(out, "false");
    }
}

} // verus!
