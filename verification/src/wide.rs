//! UTF-16 ("wide") strings as the Win32 API reads and writes them.
use vstd::prelude::*;

verus! {

/// First unit of a surrogate pair.
pub open spec fn is_high_surrogate(u: u16) -> bool {
    0xD800 <= u <= 0xDBFF
}

/// Second unit of a surrogate pair.
pub open spec fn is_low_surrogate(u: u16) -> bool {
    0xDC00 <= u <= 0xDFFF
}

/// A unit in the surrogate range, which never stands for a character alone.
pub open spec fn is_surrogate(u: u16) -> bool {
    0xD800 <= u <= 0xDFFF
}

/// The UTF-16 code units of one character: a single unit for the Basic
/// Multilingual Plane, a high/low surrogate pair above it.
pub open spec fn char_units(c: char) -> Seq<u16> {
    let v = c as u32;
    if v < 0x10000 {
        seq![v as u16]
    } else {
        let w = v - 0x10000;
        seq![(0xD800 + w / 0x400) as u16, (0xDC00 + w % 0x400) as u16]
    }
}

/// The UTF-16 encoding of a character sequence.
pub open spec fn utf16_encode(s: Seq<char>) -> Seq<u16>
    decreases s.len(),
{
    if s.len() == 0 {
        seq![]
    } else {
        utf16_encode(s.drop_last()) + char_units(s.last())
    }
}

/// The NUL-terminated wide string of `s`.
pub open spec fn wide_null_spec(s: Seq<char>) -> Seq<u16> {
    utf16_encode(s).push(0)
}

/// Encodes one character, appending its units to `out`.
fn push_char_units(out: &mut Vec<u16>, c: char)
    ensures
        final(out)@ == old(out)@ + char_units(c),
{
    let v: u32 = c as u32;
    if v < 0x10000 {
        out.push(v as u16);
    } else {
        proof {
            vstd::utf8::char_is_scalar(c);
        }
        let w: u32 = v - 0x10000;
        out.push((0xD800 + w / 0x400) as u16);
        out.push((0xDC00 + w % 0x400) as u16);
    }
    assert(out@ =~= old(out)@ + char_units(c));
}

/// Encodes `s` as UTF-16 and appends a terminating zero unit, the form in
/// which the wide-character Win32 functions take string arguments.
pub fn wide_null(s: &str) -> (wide: Vec<u16>)
    ensures
        wide@ == wide_null_spec(s@),
{
    let mut out: Vec<u16> = Vec::new();
    for c in it: s.chars()
        invariant
            it.seq() == s@,
            out@ == utf16_encode(it.seq().take(it.index() as int)),
    {
        push_char_units(&mut out, c);
        assert(it.seq().take(it.index() + 1).drop_last() =~= it.seq().take(it.index() as int));
    }
    assert(s@.take(s@.len() as int) =~= s@);
    out.push(0);
    out
}


/// The character that stands for a unit that decodes to nothing: an
/// unpaired surrogate.
pub const UNDECODABLE: char = '\u{235D}';

/// The scalar value that a high/low surrogate pair encodes.
pub open spec fn pair_scalar(hi: u16, lo: u16) -> u32 {
    (0x10000 + (hi - 0xD800) * 0x400 + (lo - 0xDC00)) as u32
}

/// Decodes UTF-16, one character per well-formed unit or surrogate pair and
/// `UNDECODABLE` for each unpaired surrogate; decoding resumes at the unit
/// after the unpaired one.
pub open spec fn utf16_decode_lossy(u: Seq<u16>) -> Seq<char>
    decreases u.len(),
{
    if u.len() == 0 {
        seq![]
    } else if u.len() >= 2 && is_high_surrogate(u[0]) && is_low_surrogate(u[1]) {
        seq![pair_scalar(u[0], u[1]) as char] + utf16_decode_lossy(u.subrange(2, u.len() as int))
    } else if is_surrogate(u[0]) {
        seq![UNDECODABLE] + utf16_decode_lossy(u.drop_first())
    } else {
        seq![(u[0] as u32) as char] + utf16_decode_lossy(u.drop_first())
    }
}

/// Carriage return or line feed.
pub open spec fn is_line_break(c: char) -> bool {
    c == '\r' || c == '\n'
}

/// `s` without its carriage returns and line feeds.
pub open spec fn strip_line_breaks(s: Seq<char>) -> Seq<char>
    decreases s.len(),
{
    if s.len() == 0 {
        seq![]
    } else if is_line_break(s[0]) {
        strip_line_breaks(s.drop_first())
    } else {
        seq![s[0]] + strip_line_breaks(s.drop_first())
    }
}

/// The one-line text of a system message: its decoded characters without
/// line breaks.
pub open spec fn message_text(units: Seq<u16>) -> Seq<char> {
    strip_line_breaks(utf16_decode_lossy(units))
}

/// `char::from_u32`: the character with scalar value `v`, or `None` where
/// `v` is a surrogate or above `0x10FFFF`.
#[verifier::external_body]
pub(crate) fn char_from_u32(v: u32) -> (c: Option<char>)
    ensures
        vstd::utf8::is_scalar(v) ==> c == Some(v as char),
        !vstd::utf8::is_scalar(v) ==> c is None,
{
    char::from_u32(v)
}

/// `String::push`: appends one character.
#[verifier::external_body]
pub(crate) fn push_char(s: &mut String, c: char)
    ensures
        final(s)@ == old(s)@.push(c),
{
    s.push(c);
}

proof fn lemma_strip_cons(c: char, rest: Seq<char>)
    ensures
        strip_line_breaks(seq![c] + rest) == (if is_line_break(c) {
            strip_line_breaks(rest)
        } else {
            seq![c] + strip_line_breaks(rest)
        }),
{
    assert((seq![c] + rest).drop_first() =~= rest);
    assert((seq![c] + rest)[0] == c);
}

/// Decodes the units of a system message into one line of text: unpaired
/// surrogates become `UNDECODABLE`, carriage returns and line feeds are
/// dropped.
pub fn decode_message(units: &[u16]) -> (text: String)
    ensures
        text@ == message_text(units@),
{
    let n: usize = units.len();
    let mut out = String::new();
    let mut i: usize = 0;
    assert(units@.subrange(0, n as int) =~= units@);
    while i < n
        invariant
            n == units@.len(),
            i <= n,
            message_text(units@) == out@ + strip_line_breaks(
                utf16_decode_lossy(units@.subrange(i as int, n as int)),
            ),
        decreases n - i,
    {
        let ghost rest = units@.subrange(i as int, n as int);
        let u: u16 = units[i];
        assert(rest[0] == u);
        let c: char;
        let step: usize;
        if 0xD800 <= u && u <= 0xDBFF && i + 1 < n && 0xDC00 <= units[i + 1] && units[i + 1] <= 0xDFFF {
            let lo: u16 = units[i + 1];
            assert(rest[1] == lo);
            let v: u32 = 0x10000 + ((u - 0xD800) as u32) * 0x400 + ((lo - 0xDC00) as u32);
            assert(v == pair_scalar(u, lo));
            c = match char_from_u32(v) {
                Some(x) => x,
                None => UNDECODABLE,
            };
            step = 2;
            assert(rest.subrange(2, rest.len() as int) =~= units@.subrange(i + 2, n as int));
        } else if 0xD800 <= u && u <= 0xDFFF {
            c = UNDECODABLE;
            step = 1;
            assert(rest.drop_first() =~= units@.subrange(i + 1, n as int));
        } else {
            c = match char_from_u32(u as u32) {
                Some(x) => x,
                None => UNDECODABLE,
            };
            step = 1;
            assert(rest.drop_first() =~= units@.subrange(i + 1, n as int));
        }
        assert(utf16_decode_lossy(rest) == seq![c] + utf16_decode_lossy(
            units@.subrange((i + step) as int, n as int),
        ));
        proof {
            lemma_strip_cons(c, utf16_decode_lossy(units@.subrange((i + step) as int, n as int)));
        }
        if c != '\r' && c != '\n' {
            push_char(&mut out, c);
        }
        i = i + step;
    }
    out
}


/// Carries no NUL character.
pub open spec fn nul_free(s: Seq<char>) -> bool {
    forall|i: int| 0 <= i < s.len() ==> s[i] != '\0'
}

/// Carries no carriage return or line feed.
pub open spec fn line_break_free(s: Seq<char>) -> bool {
    forall|i: int| 0 <= i < s.len() ==> !is_line_break(#[trigger] s[i])
}

/// Encoding a concatenation concatenates the encodings.
pub proof fn lemma_utf16_encode_append(a: Seq<char>, b: Seq<char>)
    ensures
        utf16_encode(a + b) == utf16_encode(a) + utf16_encode(b),
    decreases b.len(),
{
    if b.len() == 0 {
        assert(a + b =~= a);
        assert(utf16_encode(b) =~= Seq::<u16>::empty());
        assert(utf16_encode(a) + utf16_encode(b) =~= utf16_encode(a));
    } else {
        lemma_utf16_encode_append(a, b.drop_last());
        assert((a + b).drop_last() =~= a + b.drop_last());
        assert((a + b).last() == b.last());
        assert(utf16_encode(a + b) =~= utf16_encode(a) + utf16_encode(b));
    }
}

/// Decoding the units of one character, followed by anything, yields that
/// character first and then the decoding of what follows.
proof fn lemma_decode_char_units(c: char, rest: Seq<u16>)
    ensures
        utf16_decode_lossy(char_units(c) + rest) == seq![c] + utf16_decode_lossy(rest),
{
    vstd::utf8::char_is_scalar(c);
    let v = c as u32;
    let u = char_units(c) + rest;
    if v < 0x10000 {
        assert(u[0] == v as u16);
        assert(u.drop_first() =~= rest);
        vstd::utf8::char_u32_cast(c, v);
        assert((u[0] as u32) as char == c);
    } else {
        let w = v - 0x10000;
        assert(w == (w / 0x400) * 0x400 + w % 0x400);
        assert(u[0] == (0xD800 + w / 0x400) as u16);
        assert(u[1] == (0xDC00 + w % 0x400) as u16);
        assert(pair_scalar(u[0], u[1]) == v);
        vstd::utf8::char_u32_cast(c, v);
        assert(u.subrange(2, u.len() as int) =~= rest);
    }
}

/// Decoding gives back every encoded text: the UTF-16 encoding loses
/// nothing and never produces an undecodable unit.
pub proof fn lemma_utf16_round_trip(s: Seq<char>)
    ensures
        utf16_decode_lossy(utf16_encode(s)) == s,
    decreases s.len(),
{
    if s.len() > 0 {
        let rest = s.drop_first();
        assert(s =~= seq![s[0]] + rest);
        lemma_utf16_encode_append(seq![s[0]], rest);
        assert(seq![s[0]].drop_last() =~= Seq::<char>::empty());
        assert(seq![s[0]].last() == s[0]);
        assert(utf16_encode(Seq::<char>::empty()) =~= Seq::<u16>::empty());
        assert(utf16_encode(seq![s[0]]) =~= char_units(s[0]));
        lemma_decode_char_units(s[0], utf16_encode(rest));
        lemma_utf16_round_trip(rest);
    }
}

/// Two texts with the same UTF-16 encoding are the same text.
pub proof fn lemma_utf16_encode_injective(a: Seq<char>, b: Seq<char>)
    requires
        utf16_encode(a) == utf16_encode(b),
    ensures
        a == b,
{
    lemma_utf16_round_trip(a);
    lemma_utf16_round_trip(b);
}

/// A text without NUL characters encodes to units none of which is zero, so
/// the terminator that `wide_null` appends is the first zero unit: a reader
/// of the NUL-terminated string sees exactly the text.
pub proof fn lemma_wide_null_terminates_once(s: Seq<char>)
    requires
        nul_free(s),
    ensures
        forall|i: int| 0 <= i < utf16_encode(s).len() ==> utf16_encode(s)[i] != 0,
        wide_null_spec(s).last() == 0,
        wide_null_spec(s).len() == utf16_encode(s).len() + 1,
    decreases s.len(),
{
    if s.len() > 0 {
        let init = s.drop_last();
        assert(nul_free(init)) by {
            assert forall|i: int| 0 <= i < init.len() implies init[i] != '\0' by {
                assert(init[i] == s[i]);
            }
        }
        lemma_wide_null_terminates_once(init);
        let c = s.last();
        assert(c == s[s.len() - 1]);
        assert(c != '\0');
        vstd::utf8::char_is_scalar(c);
        let e = utf16_encode(s);
        assert(e =~= utf16_encode(init) + char_units(c));
        assert forall|i: int| 0 <= i < e.len() implies e[i] != 0 by {
            if i >= utf16_encode(init).len() {
                assert(e[i] == char_units(c)[i - utf16_encode(init).len()]);
                vstd::utf8::char_u32_cast(c, c as u32);
                vstd::utf8::char_u32_cast('\0', '\0' as u32);
                assert((c as u32) != 0);
            } else {
                assert(e[i] == utf16_encode(init)[i]);
            }
        }
    }
}

/// Dropping line breaks leaves a text without line breaks unchanged.
proof fn lemma_strip_identity(s: Seq<char>)
    requires
        line_break_free(s),
    ensures
        strip_line_breaks(s) == s,
    decreases s.len(),
{
    if s.len() > 0 {
        let rest = s.drop_first();
        assert(line_break_free(rest)) by {
            assert forall|i: int| 0 <= i < rest.len() implies !is_line_break(#[trigger] rest[i]) by {
                assert(rest[i] == s[i + 1]);
            }
        }
        assert(!is_line_break(s[0]));
        lemma_strip_identity(rest);
        assert(s =~= seq![s[0]] + rest);
    }
}

/// The text of a message holds no line break.
pub proof fn lemma_message_text_single_line(units: Seq<u16>)
    ensures
        line_break_free(message_text(units)),
{
    lemma_strip_has_no_breaks(utf16_decode_lossy(units));
}

proof fn lemma_strip_has_no_breaks(s: Seq<char>)
    ensures
        line_break_free(strip_line_breaks(s)),
    decreases s.len(),
{
    if s.len() > 0 {
        lemma_strip_has_no_breaks(s.drop_first());
        let r = strip_line_breaks(s.drop_first());
        if !is_line_break(s[0]) {
            let t = seq![s[0]] + r;
            assert forall|i: int| 0 <= i < t.len() implies !is_line_break(#[trigger] t[i]) by {
                if i > 0 {
                    assert(t[i] == r[i - 1]);
                }
            }
        }
    }
}

/// A single-line text, written as a wide string and read back as a message,
/// comes back unchanged.
pub proof fn lemma_message_text_of_encoding(s: Seq<char>)
    requires
        line_break_free(s),
    ensures
        message_text(utf16_encode(s)) == s,
{
    lemma_utf16_round_trip(s);
    lemma_strip_identity(s);
}


/// Only carriage return and line feed count as line breaks.
pub proof fn lemma_line_breaks(c: char)
    ensures
        is_line_break(c) <==> (c == '\r' || c == '\n'),
        is_line_break(c) <==> (c as u32 == 13 || c as u32 == 10),
{
    vstd::utf8::char_u32_cast(c, c as u32);
    vstd::utf8::char_u32_cast('\r', '\r' as u32);
    vstd::utf8::char_u32_cast('\n', '\n' as u32);
}

/// A character of the Basic Multilingual Plane is encoded as the single
/// unit equal to its scalar value.
pub proof fn lemma_basic_plane_units(c: char)
    requires
        (c as u32) < 0x10000,
    ensures
        char_units(c).len() == 1,
        char_units(c)[0] as u32 == c as u32,
{
}

/// A character above the Basic Multilingual Plane is encoded as a high
/// surrogate followed by a low surrogate whose ten-bit payloads, on top of
/// 0x10000, make up its scalar value.
pub proof fn lemma_supplementary_units(c: char)
    requires
        (c as u32) >= 0x10000,
    ensures
        char_units(c).len() == 2,
        0xD800 <= char_units(c)[0] <= 0xDBFF,
        0xDC00 <= char_units(c)[1] <= 0xDFFF,
        0x10000 + (char_units(c)[0] - 0xD800) * 0x400 + (char_units(c)[1] - 0xDC00) == c as u32,
{
    vstd::utf8::char_is_scalar(c);
    let w = (c as u32) - 0x10000;
    assert(w == (w / 0x400) * 0x400 + w % 0x400);
}

/// A text of the Basic Multilingual Plane becomes, unit for unit, its
/// scalar values followed by one zero.
pub proof fn lemma_wide_null_basic_plane(s: Seq<char>)
    requires
        forall|i: int| 0 <= i < s.len() ==> (#[trigger] s[i] as u32) < 0x10000,
    ensures
        wide_null_spec(s).len() == s.len() + 1,
        wide_null_spec(s)[s.len() as int] == 0,
        forall|i: int| 0 <= i < s.len() ==> #[trigger] wide_null_spec(s)[i] as u32 == s[i] as u32,
    decreases s.len(),
{
    lemma_utf16_encode_basic_plane(s);
}

proof fn lemma_utf16_encode_basic_plane(s: Seq<char>)
    requires
        forall|i: int| 0 <= i < s.len() ==> (#[trigger] s[i] as u32) < 0x10000,
    ensures
        utf16_encode(s).len() == s.len(),
        forall|i: int| 0 <= i < s.len() ==> #[trigger] utf16_encode(s)[i] as u32 == s[i] as u32,
    decreases s.len(),
{
    if s.len() > 0 {
        let init = s.drop_last();
        assert forall|i: int| 0 <= i < init.len() implies (#[trigger] init[i] as u32) < 0x10000 by {
            assert(init[i] == s[i]);
        }
        lemma_utf16_encode_basic_plane(init);
        assert(s.last() == s[s.len() - 1]);
        lemma_basic_plane_units(s.last());
        let e = utf16_encode(s);
        assert forall|i: int| 0 <= i < s.len() implies #[trigger] e[i] as u32 == s[i] as u32 by {
            if i < init.len() {
                assert(e[i] == utf16_encode(init)[i]);
                assert(init[i] == s[i]);
            } else {
                assert(e[i] == char_units(s.last())[0]);
            }
        }
    }
}

/// Units that hold no surrogate pair and no carriage return or line feed
/// make a message of as many characters, one per unit and in order: a unit
/// outside the surrogate range gives the character of that scalar value, an
/// unpaired surrogate gives U+235D.  Nothing else is dropped, changed or
/// reordered.
pub proof fn lemma_message_text_unit_by_unit(units: Seq<u16>)
    requires
        forall|i: int| 0 <= i < units.len() ==> #[trigger] units[i] != 13 && units[i] != 10,
        forall|i: int|
            0 <= i < units.len() - 1 ==> !(0xD800 <= #[trigger] units[i] <= 0xDBFF && 0xDC00 <= units[i
                + 1] <= 0xDFFF),
    ensures
        message_text(units).len() == units.len(),
        forall|i: int|
            0 <= i < units.len() ==> #[trigger] message_text(units)[i] as u32 == (if 0xD800 <= units[i]
                <= 0xDFFF {
                0x235Du32
            } else {
                units[i] as u32
            }),
    decreases units.len(),
{
    if units.len() > 0 {
        let rest = units.drop_first();
        assert forall|i: int| 0 <= i < rest.len() implies #[trigger] rest[i] != 13 && rest[i] != 10 by {
            assert(rest[i] == units[i + 1]);
        }
        assert forall|i: int|
            0 <= i < rest.len() - 1 implies !(0xD800 <= #[trigger] rest[i] <= 0xDBFF && 0xDC00 <= rest[i
            + 1] <= 0xDFFF) by {
            assert(rest[i] == units[i + 1]);
            assert(rest[i + 1] == units[i + 2]);
        }
        lemma_message_text_unit_by_unit(rest);
        let u0 = units[0];
        assert(u0 != 13 && u0 != 10);
        if units.len() >= 2 {
            assert(!(0xD800 <= units[0] <= 0xDBFF && 0xDC00 <= units[1] <= 0xDFFF));
        }
        let c = if 0xD800 <= u0 <= 0xDFFF {
            UNDECODABLE
        } else {
            (u0 as u32) as char
        };
        if !(0xD800 <= u0 <= 0xDFFF) {
            assert(vstd::utf8::is_scalar(u0 as u32));
            assert(c as u32 == u0 as u32);
        } else {
            assert(c as u32 == 0x235D);
        }
        lemma_line_breaks(c);
        assert(!is_line_break(c));
        assert(utf16_decode_lossy(units) == seq![c] + utf16_decode_lossy(rest));
        lemma_strip_cons(c, utf16_decode_lossy(rest));
        let t = message_text(units);
        assert(t == seq![c] + message_text(rest));
        assert forall|i: int|
            0 <= i < units.len() implies #[trigger] t[i] as u32 == (if 0xD800 <= units[i] <= 0xDFFF {
            0x235Du32
        } else {
            units[i] as u32
        }) by {
            if i > 0 {
                assert(t[i] == message_text(rest)[i - 1]);
                assert(rest[i - 1] == units[i]);
            }
        }
    }
}

} // verus!
