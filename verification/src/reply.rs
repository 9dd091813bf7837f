//! Persistence replies and their wire form: every dispatched envelope is
//! answered with one JSON object carrying a status, the declared file type,
//! the decoded length, the allocated name and a retrieval locator. The
//! serializer is written here over the reply's fields, character by
//! character, so its output is pinned down exactly.

use vstd::prelude::*;
use vstd::string::StrSliceExecFns;
use vstd::string::StringExecFns;

verus! {

/// The outcome reported for one dispatched envelope.
pub struct IncomingImageReply {
    /// `"OK"` on success, a text beginning with `"Error"` otherwise.
    pub status: String,
    /// The declared file type of the envelope that was dispatched.
    pub file_type: String,
    /// The number of decoded payload bytes that were stored.
    pub len: usize,
    /// The unique storage name allocated for the payload.
    pub name: String,
    /// The locator under which the stored payload can be retrieved.
    pub uri: String,
}

/// The decimal digit character for a value below ten.
pub open spec fn digit_char(d: nat) -> char {
    if d == 0 {
        '0'
    } else if d == 1 {
        '1'
    } else if d == 2 {
        '2'
    } else if d == 3 {
        '3'
    } else if d == 4 {
        '4'
    } else if d == 5 {
        '5'
    } else if d == 6 {
        '6'
    } else if d == 7 {
        '7'
    } else if d == 8 {
        '8'
    } else {
        '9'
    }
}

/// The lower-case hexadecimal digit character for a value below sixteen.
pub open spec fn hex_char(d: nat) -> char {
    if d < 10 {
        digit_char(d)
    } else if d == 10 {
        'a'
    } else if d == 11 {
        'b'
    } else if d == 12 {
        'c'
    } else if d == 13 {
        'd'
    } else if d == 14 {
        'e'
    } else {
        'f'
    }
}

/// The decimal rendering of a natural number, most significant digit first,
/// without a sign and without leading zeros.
pub open spec fn dec_rep(n: nat) -> Seq<char>
    decreases n,
{
    if n < 10 {
        seq![digit_char(n)]
    } else {
        dec_rep(n / 10).push(digit_char(n % 10))
    }
}

/// The escape of one character inside a JSON string: quote and backslash get
/// a leading backslash, a control character the `\u00XX` form with lower-case
/// hexadecimal digits, and every other character stands as itself.
pub open spec fn escaped_char(c: char) -> Seq<char> {
    if c == '"' {
        seq!['\\', '"']
    } else if c == '\\' {
        seq!['\\', '\\']
    } else if (c as u32) < 32 {
        seq!['\\', 'u', '0', '0'] + seq![
            hex_char(((c as u32) / 16) as nat),
            hex_char(((c as u32) % 16) as nat),
        ]
    } else {
        seq![c]
    }
}

/// The body of a JSON string: every character of `s` in order, escaped.
pub open spec fn json_escaped(s: Seq<char>) -> Seq<char>
    decreases s.len(),
{
    if s.len() == 0 {
        Seq::empty()
    } else {
        json_escaped(s.drop_last()) + escaped_char(s.last())
    }
}

/// A JSON string: the escaped characters between double quotes.
pub open spec fn json_string(s: Seq<char>) -> Seq<char> {
    seq!['"'] + json_escaped(s) + seq!['"']
}

/// The wire form of a reply: one JSON object with the five fields in this
/// fixed order.
pub open spec fn reply_json(
    status: Seq<char>,
    file_type: Seq<char>,
    len: nat,
    name: Seq<char>,
    uri: Seq<char>,
) -> Seq<char> {
    "{\"status\":"@ + json_string(status) + ",\"file_type\":"@ + json_string(file_type)
        + ",\"len\":"@ + dec_rep(len) + ",\"name\":"@ + json_string(name) + ",\"uri\":"@
        + json_string(uri) + "}"@
}

/// Relies on String::push: appends exactly the given character to the end of
/// the string.
#[verifier::external_body]
fn push_char(out: &mut String, c: char)
    ensures
        final(out)@ == old(out)@.push(c),
{
    out.push(c);
}

/// The lower-case hexadecimal digit for a value below sixteen.
fn hex_digit(d: u32) -> (c: char)
    requires
        d < 16,
    ensures
        c == hex_char(d as nat),
{
    if d == 0 {
        '0'
    } else if d == 1 {
        '1'
    } else if d == 2 {
        '2'
    } else if d == 3 {
        '3'
    } else if d == 4 {
        '4'
    } else if d == 5 {
        '5'
    } else if d == 6 {
        '6'
    } else if d == 7 {
        '7'
    } else if d == 8 {
        '8'
    } else if d == 9 {
        '9'
    } else if d == 10 {
        'a'
    } else if d == 11 {
        'b'
    } else if d == 12 {
        'c'
    } else if d == 13 {
        'd'
    } else if d == 14 {
        'e'
    } else {
        'f'
    }
}

/// Appends the escape of one character.
fn append_escaped_char(out: &mut String, c: char)
    ensures
        final(out)@ == old(out)@ + escaped_char(c),
{
    if c == '"' {
        out.append("\\\"");
        proof {
            reveal_strlit("\\\"");
            assert(("\\\"")@ =~= seq!['\\', '"']);
            assert(out@ =~= old(out)@ + escaped_char(c));
        }
    } else if c == '\\' {
        out.append("\\\\");
        proof {
            reveal_strlit("\\\\");
            assert(("\\\\")@ =~= seq!['\\', '\\']);
            assert(out@ =~= old(out)@ + escaped_char(c));
        }
    } else {
        let u = c as u32;
        if u < 32 {
            out.append("\\u00");
            push_char(out, hex_digit(u / 16));
            push_char(out, hex_digit(u % 16));
            proof {
                reveal_strlit("\\u00");
                assert(("\\u00")@ =~= seq!['\\', 'u', '0', '0']);
                assert(out@ =~= old(out)@ + escaped_char(c));
            }
        } else {
            push_char(out, c);
            proof {
                assert(out@ =~= old(out)@ + escaped_char(c));
            }
        }
    }
}

/// Appends `s` as a JSON string, quotes and escapes included.
fn append_json_string(out: &mut String, s: &str)
    ensures
        final(out)@ == old(out)@ + json_string(s@),
{
    push_char(out, '"');
    let n = s.unicode_len();
    let mut i: usize = 0;
    while i < n
        invariant
            n == s@.len(),
            i <= n,
            out@ == old(out)@ + seq!['"'] + json_escaped(s@.subrange(0, i as int)),
        decreases n - i,
    {
        let c = s.get_char(i);
        append_escaped_char(out, c);
        proof {
            let pre = s@.subrange(0, i + 1);
            assert(pre.drop_last() =~= s@.subrange(0, i as int));
            assert(pre.last() == s@[i as int]);
            assert(out@ =~= old(out)@ + seq!['"'] + json_escaped(pre));
        }
        i = i + 1;
    }
    push_char(out, '"');
    proof {
        assert(s@.subrange(0, n as int) =~= s@);
        assert(out@ =~= old(out)@ + json_string(s@));
    }
}

/// The decimal digit for a value below ten.
fn decimal_digit(d: usize) -> (c: char)
    requires
        d < 10,
    ensures
        c == digit_char(d as nat),
{
    if d == 0 {
        '0'
    } else if d == 1 {
        '1'
    } else if d == 2 {
        '2'
    } else if d == 3 {
        '3'
    } else if d == 4 {
        '4'
    } else if d == 5 {
        '5'
    } else if d == 6 {
        '6'
    } else if d == 7 {
        '7'
    } else if d == 8 {
        '8'
    } else {
        '9'
    }
}

/// Appends the decimal rendering of `n`.
fn append_decimal(out: &mut String, n: usize)
    ensures
        final(out)@ == old(out)@ + dec_rep(n as nat),
{
    if n == 0 {
        push_char(out, '0');
        return ;
    }
    let mut rev: Vec<char> = Vec::new();
    let mut m: usize = n;
    proof {
        assert(rev@.reverse() =~= Seq::<char>::empty());
        assert(dec_rep(n as nat) =~= dec_rep(m as nat) + rev@.reverse());
    }
    while m > 0
        invariant
            m > 0 ==> dec_rep(n as nat) == dec_rep(m as nat) + rev@.reverse(),
            m == 0 ==> dec_rep(n as nat) == rev@.reverse(),
        decreases m,
    {
        let ghost rev0 = rev@;
        let ghost m0 = m as nat;
        let d = m % 10;
        let c = decimal_digit(d);
        rev.push(c);
        m = m / 10;
        proof {
            assert(rev@.reverse() =~= seq![c] + rev0.reverse());
            if m > 0 {
                assert(dec_rep(m0) == dec_rep(m as nat).push(c));
                assert(dec_rep(m as nat).push(c) + rev0.reverse() =~= dec_rep(m as nat) + (seq![c]
                    + rev0.reverse()));
            } else {
                assert(dec_rep(m0) =~= seq![c]);
            }
        }
    }
    let k = rev.len();
    let mut j: usize = 0;
    while j < k
        invariant
            k == rev@.len(),
            j <= k,
            dec_rep(n as nat) == rev@.reverse(),
            out@ == old(out)@ + rev@.reverse().subrange(0, j as int),
        decreases k - j,
    {
        let c = rev[k - 1 - j];
        push_char(out, c);
        proof {
            assert(rev@.reverse().subrange(0, j + 1) =~= rev@.reverse().subrange(0, j as int).push(
                rev@[k - 1 - j],
            ));
        }
        j = j + 1;
    }
    proof {
        assert(rev@.reverse().subrange(0, k as int) =~= rev@.reverse());
    }
}

impl IncomingImageReply {
    /// The reply's wire form.
    pub open spec fn json(&self) -> Seq<char> {
        reply_json(self.status@, self.file_type@, self.len as nat, self.name@, self.uri@)
    }

    /// Serializes the reply as the payload of one Text frame.
    pub fn to_json(&self) -> (r: String)
        ensures
            r@ == self.json(),
    {
        let mut out = String::from_str("{\"status\":");
        append_json_string(&mut out, self.status.as_str());
        out.append(",\"file_type\":");
        append_json_string(&mut out, self.file_type.as_str());
        out.append(",\"len\":");
        append_decimal(&mut out, self.len);
        out.append(",\"name\":");
        append_json_string(&mut out, self.name.as_str());
        out.append(",\"uri\":");
        append_json_string(&mut out, self.uri.as_str());
        out.append("}");
        proof {
            assert(out@ =~= self.json());
        }
        out
    }

    /// An error reply: the status carries the message behind an `"Error: "`
    /// prefix, every other field is empty or zero.
    pub fn error(error: &str) -> (r: Self)
        ensures
            r.status@ == "Error: "@ + error@,
            r.file_type@ == Seq::<char>::empty(),
            r.len == 0,
            r.name@ == Seq::<char>::empty(),
            r.uri@ == Seq::<char>::empty(),
    {
        IncomingImageReply {
            status: String::from_str("Error: ").concat(error),
            file_type: String::new(),
            len: 0,
            name: String::new(),
            uri: String::new(),
        }
    }

    /// A success reply for a payload of `len` decoded bytes stored under
    /// `name`: status `"OK"` and a locator under the retrieval root.
    pub fn ok(file_type: &str, len: usize, name: &str) -> (r: Self)
        ensures
            r.status@ == "OK"@,
            r.file_type@ == file_type@,
            r.len == len,
            r.name@ == name@,
            r.uri@ == "black_hole/"@ + name@,
    {
        IncomingImageReply {
            status: String::from_str("OK"),
            file_type: String::from_str(file_type),
            len,
            name: String::from_str(name),
            uri: String::from_str("black_hole/").concat(name),
        }
    }
}

} // verus!
