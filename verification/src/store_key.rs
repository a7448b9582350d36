//! Store keys: filesystem-safe directory names derived from package names.
//!
//! A package name may contain `/`, `@` and `.`, none of which are safe as (or
//! inside) a single directory name. The key encodes each such character, and
//! the escape character `_` itself, as a two-character escape sequence, so
//! that distinct package names always receive distinct store keys: the store
//! never aliases two packages to one entry.

use vstd::prelude::*;
use vstd::string::*;

verus! {

/// Characters that are escaped in a store key.
pub open spec fn is_special(c: char) -> bool {
    c == '/' || c == '@' || c == '.' || c == '_'
}

/// The escape tag of a special character: the second character of its
/// two-character encoding.
pub open spec fn tag_of(c: char) -> char {
    if c == '/' {
        's'
    } else if c == '@' {
        'a'
    } else if c == '.' {
        'd'
    } else {
        '_'
    }
}

/// The encoding of one character of a package name.
pub open spec fn encode_char(c: char) -> Seq<char> {
    if is_special(c) {
        seq!['_', tag_of(c)]
    } else {
        seq![c]
    }
}

/// The store key of a package name, character by character.
pub open spec fn encode_name(s: Seq<char>) -> Seq<char>
    decreases s.len(),
{
    if s.len() == 0 {
        Seq::empty()
    } else {
        encode_char(s[0]) + encode_name(s.skip(1))
    }
}

proof fn lemma_encode_len(s: Seq<char>)
    ensures
        encode_name(s).len() >= s.len(),
    decreases s.len(),
{
    if s.len() > 0 {
        lemma_encode_len(s.skip(1));
    }
}

proof fn lemma_encode_push(s: Seq<char>, c: char)
    ensures
        encode_name(s.push(c)) == encode_name(s) + encode_char(c),
    decreases s.len(),
{
    if s.len() == 0 {
        assert(s.push(c)[0] == c);
        assert(s.push(c).skip(1) =~= Seq::<char>::empty());
        assert(encode_name(s.push(c)) == encode_char(c) + encode_name(Seq::<char>::empty()));
        assert(encode_name(Seq::<char>::empty()) == Seq::<char>::empty());
        assert(encode_name(s.push(c)) =~= encode_name(s) + encode_char(c));
    } else {
        assert(s.push(c)[0] == s[0]);
        assert(s.push(c).skip(1) =~= s.skip(1).push(c));
        lemma_encode_push(s.skip(1), c);
        assert(encode_char(s[0]) + (encode_name(s.skip(1)) + encode_char(c)) =~= (encode_char(
            s[0],
        ) + encode_name(s.skip(1))) + encode_char(c));
    }
}

/// Law: the store-key encoding is injective — two package names with the
/// same store key are the same name, so distinct packages can never collide
/// to the same store entry.
pub proof fn lemma_encode_name_injective(n1: Seq<char>, n2: Seq<char>)
    requires
        encode_name(n1) == encode_name(n2),
    ensures
        n1 == n2,
    decreases n1.len(),
{
    lemma_encode_len(n1);
    lemma_encode_len(n2);
    if n1.len() == 0 {
        assert(encode_name(n2).len() == 0);
        assert(n1 =~= n2);
    } else if n2.len() == 0 {
        assert(encode_name(n1).len() == 0);
        assert(n1 =~= n2);
    } else {
        let c1 = n1[0];
        let c2 = n2[0];
        let e = encode_name(n1);
        assert(e == encode_char(c1) + encode_name(n1.skip(1)));
        assert(e == encode_char(c2) + encode_name(n2.skip(1)));
        assert(e[0] == encode_char(c1)[0]);
        assert(e[0] == encode_char(c2)[0]);
        if is_special(c1) && is_special(c2) {
            assert(e[1] == tag_of(c1));
            assert(e[1] == tag_of(c2));
            assert(c1 == c2) by {
                assert(tag_of(c1) == tag_of(c2));
            }
            assert(encode_name(n1.skip(1)) =~= e.skip(2));
            assert(encode_name(n2.skip(1)) =~= e.skip(2));
            lemma_encode_name_injective(n1.skip(1), n2.skip(1));
            assert(n1 =~= seq![c1] + n1.skip(1));
            assert(n2 =~= seq![c2] + n2.skip(1));
        } else if !is_special(c1) && !is_special(c2) {
            assert(e[0] == c1);
            assert(e[0] == c2);
            assert(encode_name(n1.skip(1)) =~= e.skip(1));
            assert(encode_name(n2.skip(1)) =~= e.skip(1));
            lemma_encode_name_injective(n1.skip(1), n2.skip(1));
            assert(n1 =~= seq![c1] + n1.skip(1));
            assert(n2 =~= seq![c2] + n2.skip(1));
        } else if is_special(c1) {
            // A special first character encodes to '_', a plain one to
            // itself, and a plain character is never '_'.
            assert(e[0] == '_');
            assert(e[0] == c2);
            assert(false);
        } else {
            assert(e[0] == c1);
            assert(e[0] == '_');
            assert(false);
        }
    }
}

/// Law: distinct package names receive distinct store keys.
pub proof fn lemma_store_keys_collision_free(n1: Seq<char>, n2: Seq<char>)
    ensures
        n1 != n2 ==> encode_name(n1) != encode_name(n2),
{
    if encode_name(n1) == encode_name(n2) {
        lemma_encode_name_injective(n1, n2);
    }
}

/// Relies on std's `String: FromIterator<char>`: collecting characters
/// yields the string of exactly those characters in order.
#[verifier::external_body]
fn string_from_chars(v: &Vec<char>) -> (r: String)
    ensures
        r@ == v@,
{
    v.iter().collect()
}

/// The store key of `name`: its collision-free filesystem-safe encoding.
pub fn store_key(name: &str) -> (key: String)
    ensures
        key@ == encode_name(name@),
{
    let len = name.unicode_len();
    let mut out: Vec<char> = Vec::new();
    let mut i: usize = 0;
    while i < len
        invariant
            i <= len,
            len == name@.len(),
            out@ == encode_name(name@.subrange(0, i as int)),
        decreases len - i,
    {
        let c = name.get_char(i);
        proof {
            assert(name@.subrange(0, i + 1) =~= name@.subrange(0, i as int).push(name@[i as int]));
            lemma_encode_push(name@.subrange(0, i as int), name@[i as int]);
        }
        if c == '/' {
            out.push('_');
            out.push('s');
        } else if c == '@' {
            out.push('_');
            out.push('a');
        } else if c == '.' {
            out.push('_');
            out.push('d');
        } else if c == '_' {
            out.push('_');
            out.push('_');
        } else {
            out.push(c);
        }
        proof {
            assert(out@ =~= encode_name(name@.subrange(0, i + 1)));
        }
        i += 1;
    }
    proof {
        assert(name@.subrange(0, len as int) =~= name@);
    }
    string_from_chars(&out)
}

} // verus!
