use vstd::prelude::*;

verus! {

/// Unicode white space, as `char::is_whitespace` decides it.
pub open spec fn is_ws(c: char) -> bool {
    let u = c as u32;
    ||| (0x09 <= u <= 0x0D)
    ||| u == 0x20
    ||| u == 0x85
    ||| u == 0xA0
    ||| u == 0x1680
    ||| (0x2000 <= u <= 0x200A)
    ||| u == 0x2028
    ||| u == 0x2029
    ||| u == 0x202F
    ||| u == 0x205F
    ||| u == 0x3000
}

pub fn is_whitespace(c: char) -> (r: bool)
    ensures
        r == is_ws(c),
{
    let u = c as u32;
    (0x09 <= u && u <= 0x0D) || u == 0x20 || u == 0x85 || u == 0xA0 || u == 0x1680 || (0x2000
        <= u && u <= 0x200A) || u == 0x2028 || u == 0x2029 || u == 0x202F || u == 0x205F || u
        == 0x3000
}

/// Reading `s` from left to right: the words completed so far, and the word
/// being read (empty between words).
pub open spec fn split_state(s: Seq<char>) -> (Seq<Seq<char>>, Seq<char>)
    decreases s.len(),
{
    if s.len() == 0 {
        (Seq::empty(), Seq::empty())
    } else {
        let (done, cur) = split_state(s.drop_last());
        if is_ws(s.last()) {
            if cur.len() > 0 {
                (done.push(cur), Seq::empty())
            } else {
                (done, cur)
            }
        } else {
            (done, cur.push(s.last()))
        }
    }
}

/// The words of `s`: its maximal runs of non-white-space characters, in order.
pub open spec fn words(s: Seq<char>) -> Seq<Seq<char>> {
    let (done, cur) = split_state(s);
    if cur.len() > 0 {
        done.push(cur)
    } else {
        done
    }
}

pub open spec fn well_split(ws: Seq<Seq<char>>) -> bool {
    forall|i: int| 0 <= i < ws.len() ==> #[trigger] ws[i].len() > 0 && forall|j: int|
        0 <= j < ws[i].len() ==> !is_ws(#[trigger] ws[i][j])
}

/// No word is empty, and no word holds white space.
pub proof fn lemma_words_well_formed(s: Seq<char>)
    ensures
        well_split(words(s)),
{
    lemma_split_state_well_formed(s);
}

proof fn lemma_split_state_well_formed(s: Seq<char>)
    ensures
        well_split(split_state(s).0),
        forall|j: int| 0 <= j < split_state(s).1.len() ==> !is_ws(#[trigger] split_state(s).1[j]),
    decreases s.len(),
{
    if s.len() > 0 {
        lemma_split_state_well_formed(s.drop_last());
        let (done, cur) = split_state(s.drop_last());
        if is_ws(s.last()) {
            if cur.len() > 0 {
                assert forall|i: int| 0 <= i < done.push(cur).len() implies #[trigger] done.push(cur)[i].len() > 0
                    && forall|j: int| 0 <= j < done.push(cur)[i].len() ==> !is_ws(#[trigger] done.push(cur)[i][j]) by {
                    if i < done.len() {
                        assert(done.push(cur)[i] == done[i]);
                    }
                }
            }
        } else {
            assert forall|j: int| 0 <= j < cur.push(s.last()).len() implies !is_ws(#[trigger] cur.push(s.last())[j]) by {
                if j < cur.len() {
                    assert(cur.push(s.last())[j] == cur[j]);
                }
            }
        }
    }
}

/// Splits a text into its words, as `str::split_whitespace` does.
pub fn split_words(s: &Vec<char>) -> (r: Vec<Vec<char>>)
    ensures
        r@.map_values(|v: Vec<char>| v@) == words(s@),
{
    let mut done: Vec<Vec<char>> = Vec::new();
    let mut cur: Vec<char> = Vec::new();
    let mut i: usize = 0;
    assert(s@.take(0) =~= Seq::<char>::empty());
    assert(done@.map_values(|v: Vec<char>| v@) =~= Seq::<Seq<char>>::empty());
    while i < s.len()
        invariant
            0 <= i <= s@.len(),
            (done@.map_values(|v: Vec<char>| v@), cur@) == split_state(s@.take(i as int)),
        decreases s.len() - i,
    {
        let c = s[i];
        assert(s@.take(i + 1).drop_last() =~= s@.take(i as int));
        assert(s@.take(i + 1).last() == c);
        if is_whitespace(c) {
            if cur.len() > 0 {
                let ghost before = done@;
                let ghost cv = cur@;
                done.push(cur);
                cur = Vec::new();
                assert(done@.map_values(|v: Vec<char>| v@) =~= before.map_values(|v: Vec<char>| v@).push(cv));
            }
        } else {
            cur.push(c);
        }
        i = i + 1;
    }
    assert(s@.take(s@.len() as int) =~= s@);
    if cur.len() > 0 {
        let ghost before = done@;
        let ghost cv = cur@;
        done.push(cur);
        assert(done@.map_values(|v: Vec<char>| v@) =~= before.map_values(|v: Vec<char>| v@).push(cv));
    }
    done
}

/// Whether the word is exactly the keyword.
pub fn word_is(word: &Vec<char>, keyword: &Vec<char>) -> (r: bool)
    ensures
        r == (word@ == keyword@),
{
    if word.len() != keyword.len() {
        return false;
    }
    let mut i: usize = 0;
    while i < word.len()
        invariant
            0 <= i <= word@.len(),
            word@.len() == keyword@.len(),
            forall|k: int| 0 <= k < i ==> word@[k] == keyword@[k],
        decreases word.len() - i,
    {
        if word[i] != keyword[i] {
            return false;
        }
        i = i + 1;
    }
    assert(word@ =~= keyword@);
    true
}

/// Whether the text starts with the prefix.
pub fn starts_with(s: &Vec<char>, prefix: &Vec<char>) -> (r: bool)
    ensures
        r == (prefix@.len() <= s@.len() && s@.take(prefix@.len() as int) == prefix@),
{
    if prefix.len() > s.len() {
        return false;
    }
    let mut i: usize = 0;
    while i < prefix.len()
        invariant
            0 <= i <= prefix@.len() <= s@.len(),
            forall|k: int| 0 <= k < i ==> s@[k] == prefix@[k],
        decreases prefix.len() - i,
    {
        if s[i] != prefix[i] {
            assert(s@.take(prefix@.len() as int)[i as int] != prefix@[i as int]);
            return false;
        }
        i = i + 1;
    }
    assert(s@.take(prefix@.len() as int) =~= prefix@);
    true
}

/// The value of a string of decimal digits.
pub open spec fn digits_value(s: Seq<char>) -> int
    decreases s.len(),
{
    if s.len() == 0 {
        0
    } else {
        digits_value(s.drop_last()) * 10 + (s.last() as int - '0' as int)
    }
}

pub open spec fn all_digits(s: Seq<char>) -> bool {
    forall|i: int| 0 <= i < s.len() ==> '0' <= #[trigger] s[i] <= '9'
}

/// An integer in decimal: an optional sign (`-` only when `signed`) followed by
/// at least one digit, and nothing else.
pub open spec fn decimal_value(s: Seq<char>, signed: bool) -> Option<int> {
    if s.len() == 0 {
        None
    } else if s[0] == '+' {
        if s.len() > 1 && all_digits(s.skip(1)) {
            Some(digits_value(s.skip(1)))
        } else {
            None
        }
    } else if s[0] == '-' && signed {
        if s.len() > 1 && all_digits(s.skip(1)) {
            Some(-digits_value(s.skip(1)))
        } else {
            None
        }
    } else if all_digits(s) {
        Some(digits_value(s))
    } else {
        None
    }
}

/// What `str::parse::<i32>` yields.
pub open spec fn spec_parse_i32(s: Seq<char>) -> Option<i32> {
    match decimal_value(s, true) {
        Some(v) => if i32::MIN <= v <= i32::MAX {
            Some(v as i32)
        } else {
            None
        },
        None => None,
    }
}

/// What `str::parse::<u32>` yields.
pub open spec fn spec_parse_u32(s: Seq<char>) -> Option<u32> {
    match decimal_value(s, false) {
        Some(v) => if 0 <= v <= u32::MAX {
            Some(v as u32)
        } else {
            None
        },
        None => None,
    }
}

/// The value of a hexadecimal digit, either case.
pub open spec fn hex_digit(c: char) -> Option<int> {
    if '0' <= c <= '9' {
        Some(c as int - '0' as int)
    } else if 'a' <= c <= 'f' {
        Some(c as int - 'a' as int + 10)
    } else if 'A' <= c <= 'F' {
        Some(c as int - 'A' as int + 10)
    } else {
        None
    }
}

/// The number written by hexadecimal digits, most significant first.
pub open spec fn hex_value(s: Seq<char>) -> int
    decreases s.len(),
{
    if s.len() == 0 {
        0
    } else {
        hex_value(s.drop_last()) * 16 + hex_digit(s.last())->0
    }
}

/// The digits of a UUID written simple (32 characters) or hyphenated
/// (8-4-4-4-12), without the hyphens.
pub open spec fn uuid_digits(s: Seq<char>) -> Option<Seq<char>> {
    if s.len() == 32 {
        Some(s)
    } else if s.len() == 36 && s[8] == '-' && s[13] == '-' && s[18] == '-' && s[23] == '-' {
        Some(s.take(8) + s.subrange(9, 13) + s.subrange(14, 18) + s.subrange(19, 23) + s.skip(24))
    } else {
        None
    }
}

/// What `uuid::Uuid::parse_str` reads in a text, as the 128-bit value of the
/// identifier: 32 hexadecimal digits (either case), written simple,
/// hyphenated, or hyphenated after `urn:uuid:`; the digits are read most
/// significant first.
pub open spec fn uuid_parse(s: Seq<char>) -> Option<u128> {
    let body = if s.len() == 45 && s.take(9) == seq!['u', 'r', 'n', ':', 'u', 'u', 'i', 'd', ':'] {
        Some(s.skip(9))
    } else if s.len() == 45 {
        None
    } else {
        Some(s)
    };
    match body {
        Some(b) => match uuid_digits(b) {
            Some(d) => if forall|i: int| 0 <= i < d.len() ==> (#[trigger] hex_digit(d[i])) is Some {
                Some(hex_value(d) as u128)
            } else {
                None
            },
            None => None,
        },
        None => None,
    }
}

/// Calls `str::chars` and collects the characters; std documents that they are
/// the characters of the string, in order.
#[verifier::external_body]
pub(crate) fn chars_of(s: &str) -> (r: Vec<char>)
    ensures
        r@ == s@,
{
    s.chars().collect()
}

/// Collects characters into a `String` (`FromIterator<char>` of std); std
/// documents that the string holds exactly those characters, in order.
#[verifier::external_body]
pub(crate) fn string_from_chars(v: &Vec<char>) -> (r: String)
    ensures
        r@ == v@,
{
    v.iter().collect()
}

/// Calls `str::parse::<i32>`. Its documentation: an optional `+` or `-` sign
/// followed by decimal digits only, the value within the range of `i32`;
/// anything else is an error.
#[verifier::external_body]
pub(crate) fn parse_i32(s: &str) -> (r: Option<i32>)
    ensures
        r == spec_parse_i32(s@),
{
    s.parse::<i32>().ok()
}

/// Calls `str::parse::<u32>`. Its documentation: an optional `+` sign followed
/// by decimal digits only, the value within the range of `u32`; anything else
/// (a `-` sign included) is an error.
#[verifier::external_body]
pub(crate) fn parse_u32(s: &str) -> (r: Option<u32>)
    ensures
        r == spec_parse_u32(s@),
{
    s.parse::<u32>().ok()
}

/// Calls `uuid::Uuid::parse_str` (what `str::parse::<Uuid>` calls) and reads the
/// identifier as a 128-bit value (`Uuid::as_u128`). The crate's parser takes a
/// text of 32 or 36 bytes, or 45 starting with `urn:uuid:` (then dropped); it
/// reads hexadecimal digits of either case into the bytes of the identifier in
/// order, a hyphen allowed only after the 8th, 12th, 16th and 20th digit, and
/// fails unless it read exactly 32 digits. `as_u128` reads the bytes big-endian.
/// That is `uuid_parse`.
#[verifier::external_body]
pub(crate) fn parse_uuid(s: &str) -> (r: Option<u128>)
    ensures
        r == uuid_parse(s@),
{
    match uuid::Uuid::parse_str(s) {
        Ok(u) => Some(u.as_u128()),
        Err(_) => None,
    }
}

} // verus!
