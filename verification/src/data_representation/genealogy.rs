use vstd::prelude::*;
use crate::birth::{BirthCertificate, BirthRegistery};
use crate::network::text::{all_digits, digits_value, string_from_chars};

verus! {

/// The character of a decimal digit.
pub open spec fn digit_char(d: nat) -> char {
    ('0' as int + d) as char
}

/// The decimal writing of `n`, without sign or leading zeros.
pub open spec fn decimal(n: nat) -> Seq<char>
    decreases n,
{
    if n < 10 {
        seq![digit_char(n)]
    } else {
        decimal(n / 10).push(digit_char(n % 10))
    }
}

/// One arrow of the family tree: from a parent's identifier to its child's.
pub open spec fn edge(c: BirthCertificate) -> Seq<char> {
    seq![' ', ' ', ' ', ' '] + decimal(c.parent_id as nat) + seq![' ', '-', '>', ' '] + decimal(c.id as nat) + seq![';', '\n']
}

pub open spec fn edges(certs: Seq<BirthCertificate>) -> Seq<char>
    decreases certs.len(),
{
    if certs.len() == 0 {
        Seq::empty()
    } else {
        edges(certs.drop_last()) + edge(certs.last())
    }
}

/// The family tree of the recorded births, as a GraphViz graph: one arrow per
/// birth, from parent to child, in the order of the records.
pub open spec fn genealogy_text(certs: Seq<BirthCertificate>) -> Seq<char> {
    seq!['d', 'i', 'g', 'r', 'a', 'p', 'h', ' ', 'G', ' ', '{', '\n'] + edges(certs) + seq!['}', '\n']
}

/// Reading back the decimal writing of a number gives the number.
pub proof fn lemma_decimal_reads_back(n: nat)
    ensures
        all_digits(decimal(n)),
        digits_value(decimal(n)) == n,
    decreases n,
{
    if n >= 10 {
        lemma_decimal_reads_back(n / 10);
        let s = decimal(n);
        assert(s.drop_last() =~= decimal(n / 10));
        assert forall|i: int| 0 <= i < s.len() implies '0' <= #[trigger] s[i] <= '9' by {
            if i < s.len() - 1 {
                assert(s[i] == decimal(n / 10)[i]);
            }
        }
        assert(s.last() as int == '0' as int + n % 10);
        assert(digits_value(s) == digits_value(decimal(n / 10)) * 10 + n % 10);
        assert((n / 10) * 10 + n % 10 == n);
    } else {
        let s = decimal(n);
        assert(s.drop_last() =~= Seq::<char>::empty());
        assert(digits_value(s.drop_last()) == 0);
        assert(s.last() as int == '0' as int + n);
        assert(digits_value(s) == n);
    }
}

fn digit(d: usize) -> (c: char)
    requires
        d < 10,
    ensures
        c == digit_char(d as nat),
{
    if d == 0 {
        '0'
    } else if d == 1 {
        '1'
    } else if d == 2 {
        '2'
    } else if d == 3 {
        '3'
    } else if d == 4 {
        '4'
    } else if d == 5 {
        '5'
    } else if d == 6 {
        '6'
    } else if d == 7 {
        '7'
    } else if d == 8 {
        '8'
    } else {
        '9'
    }
}

/// The decimal writing of `n`.
pub fn decimal_chars(n: usize) -> (r: Vec<char>)
    ensures
        r@ == decimal(n as nat),
    decreases n,
{
    if n < 10 {
        let mut v: Vec<char> = Vec::new();
        v.push(digit(n));
        assert(v@ =~= seq![digit_char(n as nat)]);
        v
    } else {
        let mut v = decimal_chars(n / 10);
        v.push(digit(n % 10));
        v
    }
}

fn push_str(v: &mut Vec<char>, s: &[char])
    ensures
        final(v)@ == old(v)@ + s@,
{
    let mut i: usize = 0;
    while i < s.len()
        invariant
            0 <= i <= s@.len(),
            v@ == old(v)@ + s@.take(i as int),
        decreases s.len() - i,
    {
        v.push(s[i]);
        assert(s@.take(i + 1) =~= s@.take(i as int).push(s@[i as int]));
        i = i + 1;
    }
    assert(s@.take(s@.len() as int) =~= s@);
}

/// The family tree of the registry's births, as a GraphViz graph.
pub fn genealogy_dot(registry: &BirthRegistery) -> (r: String)
    ensures
        r@ == genealogy_text(registry@),
{
    let certs = registry.get();
    let mut v: Vec<char> = Vec::new();
    let head = ['d', 'i', 'g', 'r', 'a', 'p', 'h', ' ', 'G', ' ', '{', '\n'];
    push_str(&mut v, &head);
    assert(v@ =~= seq!['d', 'i', 'g', 'r', 'a', 'p', 'h', ' ', 'G', ' ', '{', '\n']);
    let ghost start = v@;
    let mut i: usize = 0;
    while i < certs.len()
        invariant
            0 <= i <= certs@.len(),
            v@ == start + edges(certs@.take(i as int)),
        decreases certs.len() - i,
    {
        let c = &certs[i];
        let ghost before = v@;
        push_str(&mut v, &[' ', ' ', ' ', ' ']);
        let mut p = decimal_chars(c.parent_id);
        v.append(&mut p);
        push_str(&mut v, &[' ', '-', '>', ' ']);
        let mut d = decimal_chars(c.id);
        v.append(&mut d);
        push_str(&mut v, &[';', '\n']);
        assert(certs@.take(i + 1).drop_last() =~= certs@.take(i as int));
        assert(v@ =~= before + edge(certs@[i as int]));
        i = i + 1;
    }
    assert(certs@.take(certs@.len() as int) =~= certs@);
    push_str(&mut v, &['}', '\n']);
    string_from_chars(&v)
}

} // verus!
