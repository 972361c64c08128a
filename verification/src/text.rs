//! Text handling shared by the tray icon and the settings dialog:
//! splitting the balance line, UTF-16 buffers for Win32, and key clean-up.
use vstd::prelude::*;

verus! {

// ── Characters of a string ─────────────────────────────────────────

/// Collects the characters of `s` in order.
pub fn chars_of(s: &str) -> (v: Vec<char>)
    ensures
        v@ == s@,
{
    let mut v: Vec<char> = Vec::new();
    for c in it: s.chars()
        invariant
            v@ == it.seq().take(it.index() as int),
            s@ == it.seq(),
    {
        v.push(c);
    }
    v
}

// ── The part of a balance line shown on the icon ───────────────────

/// `": "` starts at index `i` of `s`.
pub open spec fn separator_at(s: Seq<char>, i: int) -> bool {
    0 <= i && i + 1 < s.len() && s[i] == ':' && s[i + 1] == ' '
}

/// Index of the first `": "` in `s`, if any.
pub open spec fn first_separator(s: Seq<char>) -> Option<int>
    decreases s.len(),
{
    if s.len() < 2 {
        None
    } else if s[0] == ':' && s[1] == ' ' {
        Some(0)
    } else {
        match first_separator(s.drop_first()) {
            Some(k) => Some(k + 1),
            None => None,
        }
    }
}

/// What follows the first `": "` of `s`, or the whole of `s` when it has none.
pub open spec fn display_part(s: Seq<char>) -> Seq<char> {
    match first_separator(s) {
        Some(p) => s.subrange(p + 2, s.len() as int),
        None => s,
    }
}

/// `first_separator` finds exactly the least index at which `": "` starts.
pub proof fn lemma_first_separator(s: Seq<char>)
    ensures
        first_separator(s) matches Some(p) ==> separator_at(s, p) && forall|j: int|
            0 <= j < p ==> !separator_at(s, j),
        first_separator(s) is None ==> forall|j: int| !separator_at(s, j),
    decreases s.len(),
{
    if s.len() >= 2 && !(s[0] == ':' && s[1] == ' ') {
        let t = s.drop_first();
        lemma_first_separator(t);
        assert forall|j: int| 1 <= j implies separator_at(s, j) == separator_at(t, j - 1) by {}
    }
}

/// A separator at `p` with none before it is the first one.
proof fn lemma_first_separator_is(s: Seq<char>, p: int)
    requires
        separator_at(s, p),
        forall|j: int| 0 <= j < p ==> !separator_at(s, j),
    ensures
        first_separator(s) == Some(p),
{
    lemma_first_separator(s);
    match first_separator(s) {
        Some(q) => {
            if q < p {
                assert(!separator_at(s, q));
            } else if q > p {
                assert(!separator_at(s, p));
            }
        },
        None => {
            assert(!separator_at(s, p));
        },
    }
}

/// The part of a balance line shown on the tray icon: the text after the first
/// `": "` (so `"Balance: ¥12.34"` gives `"¥12.34"`), or the whole line when it has none.
pub fn display_part_of(text: &str) -> (r: &str)
    ensures
        r@ == display_part(text@),
{
    let v = chars_of(text);
    let n = v.len();
    let mut i: usize = 0;
    while n >= 2 && i < n - 1
        invariant
            v@ == text@,
            n == v@.len(),
            i <= n,
            forall|j: int| 0 <= j < i ==> !separator_at(v@, j),
        decreases n - i,
    {
        if v[i] == ':' && v[i + 1] == ' ' {
            proof {
                lemma_first_separator_is(v@, i as int);
            }
            return text.substring_char(i + 2, n);
        }
        i = i + 1;
    }
    proof {
        lemma_first_separator(v@);
        if first_separator(v@) is Some {
            let p = first_separator(v@)->0;
            assert(separator_at(v@, p));
        }
    }
    text
}

/// The part shown of a line made of a prefix without `": "`, then `": "`, then `rest`
/// is exactly `rest`.
pub proof fn lemma_display_part_after_prefix(prefix: Seq<char>, rest: Seq<char>)
    requires
        first_separator(prefix) is None,
    ensures
        display_part(prefix + seq![':', ' '] + rest) == rest,
{
    let s = prefix + seq![':', ' '] + rest;
    let p = prefix.len() as int;
    lemma_first_separator(prefix);
    assert(separator_at(s, p));
    assert forall|j: int| 0 <= j < p implies !separator_at(s, j) by {
        if j + 1 < p {
            assert(!separator_at(prefix, j));
        }
    }
    lemma_first_separator_is(s, p);
    assert(s.subrange(p + 2, s.len() as int) =~= rest);
}

// ── UTF-16 for Win32 ───────────────────────────────────────────────

/// The UTF-16 code units of one character.
pub open spec fn utf16_units(c: char) -> Seq<u16> {
    let v = c as u32 as int;
    if v < 0x10000 {
        seq![v as u16]
    } else {
        seq![(0xD800 + (v - 0x10000) / 0x400) as u16, (0xDC00 + (v - 0x10000) % 0x400) as u16]
    }
}

/// The UTF-16 encoding of a character sequence.
pub open spec fn utf16_encode(s: Seq<char>) -> Seq<u16>
    decreases s.len(),
{
    if s.len() == 0 {
        Seq::empty()
    } else {
        utf16_encode(s.drop_last()) + utf16_units(s.last())
    }
}

/// `s` encoded as UTF-16 and terminated by a NUL unit, as Win32 wide-string APIs take it.
pub fn encode_wide(s: &str) -> (w: Vec<u16>)
    ensures
        w@ == utf16_encode(s@).push(0u16),
{
    let v = chars_of(s);
    let n = v.len();
    let mut w: Vec<u16> = Vec::new();
    let mut i: usize = 0;
    while i < n
        invariant
            v@ == s@,
            n == v@.len(),
            i <= n,
            w@ == utf16_encode(v@.take(i as int)),
        decreases n - i,
    {
        let c = v[i];
        let cv = c as u32;
        proof {
            vstd::utf8::char_is_scalar(c);
        }
        if cv < 0x10000 {
            w.push(cv as u16);
        } else {
            let off = cv - 0x10000;
            w.push((0xD800 + off / 0x400) as u16);
            w.push((0xDC00 + off % 0x400) as u16);
        }
        proof {
            assert(v@.take(i + 1).drop_last() =~= v@.take(i as int));
            assert(v@.take(i + 1).last() == c);
        }
        i = i + 1;
    }
    proof {
        assert(v@.take(n as int) =~= v@);
    }
    w.push(0);
    w
}

/// Number of UTF-16 units a tray tooltip may hold besides its terminator.
pub const TIP_MAX_UNITS: usize = 127;
/// Size of the tooltip buffer of a tray icon, in UTF-16 units.
pub const TIP_BUFFER_UNITS: usize = 128;

/// The tooltip buffer that holds `wide`: a zero-filled buffer of 128 units whose
/// first `min(wide.len(), 127)` units are those of `wide`.
pub open spec fn tip_buffer_of(wide: Seq<u16>) -> Seq<u16> {
    let n = if wide.len() < 127 { wide.len() as int } else { 127 };
    Seq::new(128, |i: int| if i < n { wide[i] } else { 0u16 })
}

/// The 128-unit tooltip buffer for `text`: its NUL-terminated UTF-16 encoding,
/// cut to 127 units, in a zero-filled buffer.
pub fn tip_buffer(text: &str) -> (buf: Vec<u16>)
    ensures
        buf@ == tip_buffer_of(utf16_encode(text@).push(0u16)),
        buf@.len() == 128,
        buf@[127] == 0,
{
    let wide = encode_wide(text);
    let n = if wide.len() < TIP_MAX_UNITS { wide.len() } else { TIP_MAX_UNITS };
    let mut buf: Vec<u16> = Vec::new();
    let mut i: usize = 0;
    while i < TIP_BUFFER_UNITS
        invariant
            n <= 127,
            n <= wide@.len(),
            n == if wide@.len() < 127 { wide@.len() as int } else { 127 },
            i <= 128,
            buf@.len() == i,
            forall|j: int| 0 <= j < i ==> buf@[j] == (if j < n { wide@[j] } else { 0u16 }),
        decreases 128 - i,
    {
        if i < n {
            buf.push(wide[i]);
        } else {
            buf.push(0);
        }
        i = i + 1;
    }
    proof {
        assert(buf@ =~= tip_buffer_of(wide@));
    }
    buf
}

// ── Cleaning up a typed key ────────────────────────────────────────

/// A UTF-16 unit that starts a surrogate pair.
pub open spec fn is_high_surrogate(u: u16) -> bool {
    0xD800 <= u <= 0xDBFF
}

/// A UTF-16 unit that ends a surrogate pair.
pub open spec fn is_low_surrogate(u: u16) -> bool {
    0xDC00 <= u <= 0xDFFF
}

/// The character of a surrogate pair.
pub open spec fn pair_char(hi: u16, lo: u16) -> char {
    ((0x10000 + (hi - 0xD800) * 0x400 + (lo - 0xDC00)) as u32) as char
}

/// Lossy UTF-16 decoding: a unit outside the surrogate range is its own character, a
/// high surrogate followed by a low one is the pair's character, and every unpaired
/// surrogate becomes U+FFFD.
pub open spec fn utf16_lossy_decode(units: Seq<u16>) -> Seq<char>
    decreases units.len(),
{
    if units.len() == 0 {
        Seq::empty()
    } else if !is_high_surrogate(units[0]) && !is_low_surrogate(units[0]) {
        seq![(units[0] as u32) as char] + utf16_lossy_decode(units.drop_first())
    } else if is_high_surrogate(units[0]) && units.len() >= 2 && is_low_surrogate(units[1]) {
        seq![pair_char(units[0], units[1])] + utf16_lossy_decode(
            units.subrange(2, units.len() as int),
        )
    } else {
        seq!['\u{FFFD}'] + utf16_lossy_decode(units.drop_first())
    }
}

/// Whether `c` has the Unicode `White_Space` property.
pub open spec fn is_unicode_whitespace(c: char) -> bool {
    let v = c as u32;
    ||| 0x09 <= v <= 0x0D
    ||| v == 0x20
    ||| v == 0x85
    ||| v == 0xA0
    ||| v == 0x1680
    ||| 0x2000 <= v <= 0x200A
    ||| v == 0x2028
    ||| v == 0x2029
    ||| v == 0x202F
    ||| v == 0x205F
    ||| v == 0x3000
}

/// Calls `String::from_utf16_lossy`, which decodes UTF-16 and puts U+FFFD in place of
/// each unpaired surrogate (the replacement that `char::decode_utf16` documents).
#[verifier::external_body]
fn decode_utf16_lossy(units: &[u16]) -> (s: String)
    ensures
        s@ == utf16_lossy_decode(units@),
{
    String::from_utf16_lossy(units)
}

/// Calls `char::is_whitespace`, which tells whether the character has the Unicode
/// `White_Space` property.
#[verifier::external_body]
fn char_is_whitespace(c: char) -> (r: bool)
    ensures
        r == is_unicode_whitespace(c),
{
    c.is_whitespace()
}

/// `s` without the trailing characters that satisfy `f`.
pub open spec fn strip_end(s: Seq<char>, f: spec_fn(char) -> bool) -> Seq<char>
    decreases s.len(),
{
    if s.len() > 0 && f(s.last()) {
        strip_end(s.drop_last(), f)
    } else {
        s
    }
}

/// `s` without the leading characters that satisfy `f`.
pub open spec fn strip_start(s: Seq<char>, f: spec_fn(char) -> bool) -> Seq<char>
    decreases s.len(),
{
    if s.len() > 0 && f(s[0]) {
        strip_start(s.drop_first(), f)
    } else {
        s
    }
}

/// The NUL character.
pub open spec fn is_nul(c: char) -> bool {
    c == '\0'
}

/// The NUL test as a predicate.
pub open spec fn nul_pred() -> spec_fn(char) -> bool {
    |c: char| is_nul(c)
}

/// The whitespace test as a predicate.
pub open spec fn ws_pred() -> spec_fn(char) -> bool {
    |c: char| is_unicode_whitespace(c)
}

/// `s` with trailing NULs removed, then leading and trailing whitespace removed
/// (`trim_end_matches('\0')` followed by `trim()`).
pub open spec fn clean_key(s: Seq<char>) -> Seq<char> {
    strip_start(strip_end(strip_end(s, nul_pred()), ws_pred()), ws_pred())
}

/// The key typed into the settings dialog, read from the edit control's buffer.
pub open spec fn key_from_units(units: Seq<u16>) -> Seq<char> {
    clean_key(utf16_lossy_decode(units))
}

/// `m` NUL characters.
pub open spec fn nuls(m: nat) -> Seq<char> {
    Seq::new(m, |i: int| '\0')
}

/// `m` zero units.
pub open spec fn zero_units(m: nat) -> Seq<u16> {
    Seq::new(m, |i: int| 0u16)
}

/// Encoding characters followed by NULs gives their encoding followed by zero units.
pub proof fn lemma_encode_with_nuls(s: Seq<char>, m: nat)
    ensures
        utf16_encode(s + nuls(m)) == utf16_encode(s) + zero_units(m),
    decreases m,
{
    if m == 0 {
        assert(s + nuls(0) =~= s);
        assert(utf16_encode(s) + zero_units(0) =~= utf16_encode(s));
    } else {
        let k = (m - 1) as nat;
        lemma_encode_with_nuls(s, k);
        let t = s + nuls(m);
        assert(t.drop_last() =~= s + nuls(k));
        assert(t.last() == '\0');
        assert(('\0' as u32) == 0u32);
        assert(utf16_units('\0') =~= seq![0u16]);
        assert(utf16_encode(s) + zero_units(m) =~= (utf16_encode(s) + zero_units(k)) + seq![0u16]);
    }
}

/// Stripping NULs from characters followed by NULs strips the added ones too.
proof fn lemma_strip_nuls(s: Seq<char>, m: nat)
    ensures
        strip_end(s + nuls(m), nul_pred()) == strip_end(s, nul_pred()),
    decreases m,
{
    if m == 0 {
        assert(s + nuls(0) =~= s);
    } else {
        let k = (m - 1) as nat;
        lemma_strip_nuls(s, k);
        let t = s + nuls(m);
        assert(t.drop_last() =~= s + nuls(k));
    }
}

/// The encoding of a non-empty sequence starts with that of its first character.
proof fn lemma_encode_front(s: Seq<char>)
    requires
        s.len() > 0,
    ensures
        utf16_encode(s) == utf16_units(s[0]) + utf16_encode(s.drop_first()),
    decreases s.len(),
{
    if s.len() == 1 {
        assert(s.drop_last() =~= Seq::<char>::empty());
        assert(s.drop_first() =~= Seq::<char>::empty());
        assert(utf16_encode(s.drop_first()) =~= Seq::<u16>::empty());
        assert(utf16_encode(s.drop_last()) =~= Seq::<u16>::empty());
        assert(utf16_units(s[0]) + Seq::<u16>::empty() =~= utf16_units(s[0]));
    } else {
        let d = s.drop_last();
        lemma_encode_front(d);
        assert(d.drop_first() =~= s.drop_first().drop_last());
        assert(s.drop_first().last() == s.last());
        assert(d[0] == s[0]);
        assert(utf16_encode(s) =~= utf16_units(s[0]) + utf16_encode(s.drop_first()));
    }
}

/// Decoding the units of one character followed by other units gives that character
/// followed by the decoding of the others.
proof fn lemma_decode_char(c: char, rest: Seq<u16>)
    ensures
        utf16_lossy_decode(utf16_units(c) + rest) == seq![c] + utf16_lossy_decode(rest),
{
    let v = c as u32;
    let u = utf16_units(c) + rest;
    vstd::utf8::char_is_scalar(c);
    vstd::utf8::char_u32_cast(c, v);
    if v < 0x10000 {
        assert(u[0] == v as u16);
        assert((u[0] as u32) == v);
        assert(u.drop_first() =~= rest);
    } else {
        let x = (v - 0x10000) as int;
        vstd::arithmetic::div_mod::lemma_fundamental_div_mod(x, 0x400);
        assert(0 <= x % 0x400 < 0x400) by {
            vstd::arithmetic::div_mod::lemma_mod_pos_bound(x, 0x400);
        }
        assert(x / 0x400 <= 0x3FF) by {
            vstd::arithmetic::div_mod::lemma_div_is_ordered(x, 0xFFFFF, 0x400);
        }
        assert(x / 0x400 >= 0) by {
            vstd::arithmetic::div_mod::lemma_div_pos_is_pos(x, 0x400);
        }
        let hi = (0xD800 + x / 0x400) as u16;
        let lo = (0xDC00 + x % 0x400) as u16;
        assert(u[0] == hi);
        assert(u[1] == lo);
        assert(hi - 0xD800 == x / 0x400);
        assert(lo - 0xDC00 == x % 0x400);
        assert(0x10000 + (hi - 0xD800) * 0x400 + (lo - 0xDC00) == v);
        assert(pair_char(hi, lo) == c);
        assert(u.subrange(2, u.len() as int) =~= rest);
    }
}

/// Decoding the UTF-16 encoding of characters gives those characters back.
pub proof fn lemma_decode_encode(s: Seq<char>)
    ensures
        utf16_lossy_decode(utf16_encode(s)) == s,
    decreases s.len(),
{
    if s.len() == 0 {
        assert(utf16_encode(s) =~= Seq::<u16>::empty());
    } else {
        lemma_encode_front(s);
        lemma_decode_char(s[0], utf16_encode(s.drop_first()));
        lemma_decode_encode(s.drop_first());
        assert(seq![s[0]] + s.drop_first() =~= s);
    }
}

/// A key that is already clean and does not end in NUL, shown in the key field and
/// read back from its buffer (its UTF-16 units followed by zeros), is the same key.
pub proof fn law_key_reads_back(key: Seq<char>, pad: nat)
    requires
        clean_key(key) == key,
        key.len() == 0 || key.last() != '\0',
    ensures
        key_from_units(utf16_encode(key) + zero_units(pad)) == key,
{
    lemma_encode_with_nuls(key, pad);
    lemma_decode_encode(key + nuls(pad));
    lemma_strip_nuls(key, pad);
    assert(strip_end(key, nul_pred()) == key);
}

/// Removing trailing characters of a prefix that ends in one that `f` rejects
/// stops there.
proof fn lemma_strip_end_step(s: Seq<char>, e: int, f: spec_fn(char) -> bool)
    requires
        0 < e <= s.len(),
        f(s[e - 1]),
    ensures
        strip_end(s.take(e), f) == strip_end(s.take(e - 1), f),
{
    assert(s.take(e).drop_last() =~= s.take(e - 1));
}

proof fn lemma_strip_start_step(s: Seq<char>, b: int, f: spec_fn(char) -> bool)
    requires
        0 <= b < s.len(),
        f(s[b]),
    ensures
        strip_start(s.skip(b), f) == strip_start(s.skip(b + 1), f),
{
    assert(s.skip(b).drop_first() =~= s.skip(b + 1));
}

/// The key text of an edit-control buffer: decoded from UTF-16 (invalid data
/// replaced), trailing NULs removed, then surrounding whitespace removed.
pub fn key_text_from_units(units: &[u16]) -> (key: String)
    ensures
        key@ == key_from_units(units@),
{
    let decoded = decode_utf16_lossy(units);
    let s = decoded.as_str();
    let v = chars_of(s);
    let ghost sv = v@;
    let mut e: usize = v.len();
    proof {
        assert(sv.take(e as int) =~= sv);
    }
    while e > 0 && v[e - 1] == '\0'
        invariant
            v@ == sv,
            e <= sv.len(),
            strip_end(sv.take(e as int), nul_pred()) == strip_end(sv, nul_pred()),
        decreases e,
    {
        proof {
            lemma_strip_end_step(sv, e as int, nul_pred());
        }
        e = e - 1;
    }
    let ghost e1 = e;
    proof {
        assert(strip_end(sv.take(e1 as int), nul_pred()) == sv.take(e1 as int));
        assert(strip_end(sv.take(e as int), ws_pred()) == strip_end(strip_end(sv, nul_pred()), ws_pred()));
    }
    while e > 0 && char_is_whitespace(v[e - 1])
        invariant
            v@ == sv,
            e <= e1 <= sv.len(),
            strip_end(sv.take(e as int), ws_pred()) == strip_end(strip_end(sv, nul_pred()), ws_pred()),
        decreases e,
    {
        proof {
            lemma_strip_end_step(sv, e as int, ws_pred());
        }
        e = e - 1;
    }
    let ghost t = sv.take(e as int);
    proof {
        assert(strip_end(t, ws_pred()) == t);
        assert(t.skip(0) =~= t);
    }
    let mut b: usize = 0;
    while b < e && char_is_whitespace(v[b])
        invariant
            v@ == sv,
            e <= sv.len(),
            t == sv.take(e as int),
            b <= e,
            strip_start(t.skip(b as int), ws_pred()) == clean_key(sv),
        decreases e - b,
    {
        proof {
            lemma_strip_start_step(t, b as int, ws_pred());
        }
        b = b + 1;
    }
    proof {
        assert(strip_start(t.skip(b as int), ws_pred()) == t.skip(b as int));
        assert(t.skip(b as int) =~= sv.subrange(b as int, e as int));
    }
    String::from_str(s.substring_char(b, e))
}

} // verus!
