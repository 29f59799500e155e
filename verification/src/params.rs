//! Query parameter sets and their wire encoding.
//!
//! A parameter set is an ordered list of name/value pairs. On the wire it
//! becomes a `?`-prefixed, `&`-joined list of `name=value` pairs in
//! `application/x-www-form-urlencoded` form: bytes outside the unreserved set
//! are percent-encoded with uppercase hex digits, and a space becomes `+`.

use vstd::prelude::*;
use vstd::string::StrSliceExecFns;
use vstd::string::StringExecFns;
use vstd::string::StringSliceAdditionalSpecFns;
use vstd::utf8::encode_utf8;

use crate::common::Direction;

verus! {

/// Bytes written as themselves by the form encoding: ASCII alphanumerics
/// and `*`, `-`, `.`, `_`.
pub open spec fn is_unreserved_byte(b: u8) -> bool {
    (0x30 <= b <= 0x39) || (0x41 <= b <= 0x5a) || (0x61 <= b <= 0x7a) || b == 0x2a || b == 0x2d
        || b == 0x2e || b == 0x5f
}

/// The ASCII code of the uppercase hex digit for `d`.
pub open spec fn hex_char_byte(d: u8) -> u8
    recommends
        d < 16,
{
    if d < 10 {
        (0x30 + d) as u8
    } else {
        (0x37 + d) as u8
    }
}

/// The form encoding of one byte.
pub open spec fn encode_byte(b: u8) -> Seq<u8> {
    if b == 0x20 {
        seq![0x2bu8]
    } else if is_unreserved_byte(b) {
        seq![b]
    } else {
        seq![0x25u8, hex_char_byte(b / 16), hex_char_byte(b % 16)]
    }
}

/// The form encoding of a byte sequence: each byte encoded in order.
pub open spec fn form_encoded(bs: Seq<u8>) -> Seq<u8>
    decreases bs.len(),
{
    if bs.len() == 0 {
        Seq::empty()
    } else {
        encode_byte(bs[0]) + form_encoded(bs.drop_first())
    }
}

/// The form encoding of a character string: its UTF-8 bytes, each encoded.
pub open spec fn encoded_str(s: Seq<char>) -> Seq<u8> {
    form_encoded(encode_utf8(s))
}

/// One encoded `name=value` pair.
pub open spec fn pair_encoded(p: (Seq<char>, Seq<char>)) -> Seq<u8> {
    encoded_str(p.0) + seq![0x3du8] + encoded_str(p.1)
}

/// Encoded pairs joined with `&`.
pub open spec fn pairs_encoded(ps: Seq<(Seq<char>, Seq<char>)>) -> Seq<u8>
    decreases ps.len(),
{
    if ps.len() == 0 {
        Seq::empty()
    } else if ps.len() == 1 {
        pair_encoded(ps[0])
    } else {
        pair_encoded(ps[0]) + seq![0x26u8] + pairs_encoded(ps.drop_first())
    }
}

/// The full query suffix: empty for an empty parameter set, else `?` followed
/// by the joined pairs.
pub open spec fn query_suffix_bytes(ps: Seq<(Seq<char>, Seq<char>)>) -> Seq<u8> {
    if ps.len() == 0 {
        Seq::empty()
    } else {
        seq![0x3fu8] + pairs_encoded(ps)
    }
}

/// ASCII bytes read as characters.
pub open spec fn ascii_chars(bs: Seq<u8>) -> Seq<char> {
    bs.map_values(|b: u8| b as char)
}

/// The query suffix as a character string.
pub open spec fn query_suffix(ps: Seq<(Seq<char>, Seq<char>)>) -> Seq<char> {
    ascii_chars(query_suffix_bytes(ps))
}

/// An ordered set of query parameters, built by reflecting over a
/// descriptor's present fields.
#[derive(Debug, Clone)]
pub struct QueryParams {
    pairs: Vec<(String, String)>,
}

impl View for QueryParams {
    type V = Seq<(Seq<char>, Seq<char>)>;

    closed spec fn view(&self) -> Seq<(Seq<char>, Seq<char>)> {
        Seq::new(self.pairs@.len(), |i: int| (self.pairs@[i].0@, self.pairs@[i].1@))
    }
}

impl QueryParams {
    /// An empty parameter set.
    pub fn new() -> (r: QueryParams)
        ensures
            r@ == Seq::<(Seq<char>, Seq<char>)>::empty(),
    {
        let r = QueryParams { pairs: Vec::new() };
        proof {
            assert(r@ =~= Seq::<(Seq<char>, Seq<char>)>::empty());
        }
        r
    }

    /// Appends one `name`/`value` pair; existing pairs are kept unchanged.
    pub fn push(&mut self, name: &str, value: String)
        ensures
            final(self)@ == old(self)@.push((name@, value@)),
    {
        let ghost v = value@;
        self.pairs.push((name.to_owned(), value));
        proof {
            assert(self@ =~= old(self)@.push((name@, v)));
        }
    }

    /// The number of pairs.
    pub fn len(&self) -> (r: usize)
        ensures
            r == self@.len(),
    {
        self.pairs.len()
    }
}

impl Default for QueryParams {
    /// An empty parameter set.
    fn default() -> (r: QueryParams)
        ensures
            r@ == Seq::<(Seq<char>, Seq<char>)>::empty(),
    {
        QueryParams::new()
    }
}

fn is_unreserved_exec(b: u8) -> (r: bool)
    ensures
        r == is_unreserved_byte(b),
{
    (0x30 <= b && b <= 0x39) || (0x41 <= b && b <= 0x5a) || (0x61 <= b && b <= 0x7a) || b == 0x2a
        || b == 0x2d || b == 0x2e || b == 0x5f
}

fn hex_char_exec(d: u8) -> (r: u8)
    requires
        d < 16,
    ensures
        r == hex_char_byte(d),
{
    if d < 10 {
        0x30 + d
    } else {
        0x37 + d
    }
}

proof fn lemma_form_encoded_snoc(bs: Seq<u8>, b: u8)
    ensures
        form_encoded(bs.push(b)) == form_encoded(bs) + encode_byte(b),
    decreases bs.len(),
{
    if bs.len() == 0 {
        assert(bs.push(b)[0] == b);
        assert(bs.push(b).drop_first() =~= Seq::<u8>::empty());
        assert(form_encoded(bs.push(b)) == encode_byte(b) + form_encoded(Seq::<u8>::empty()));
        assert(form_encoded(Seq::<u8>::empty()) == Seq::<u8>::empty());
        assert(form_encoded(bs.push(b)) =~= form_encoded(bs) + encode_byte(b));
    } else {
        lemma_form_encoded_snoc(bs.drop_first(), b);
        assert(bs.push(b)[0] == bs[0]);
        assert(bs.push(b).drop_first() =~= bs.drop_first().push(b));
        assert(form_encoded(bs.push(b)) =~= form_encoded(bs) + encode_byte(b));
    }
}

proof fn lemma_pairs_encoded_snoc(ps: Seq<(Seq<char>, Seq<char>)>, p: (Seq<char>, Seq<char>))
    requires
        ps.len() >= 1,
    ensures
        pairs_encoded(ps.push(p)) == pairs_encoded(ps) + seq![0x26u8] + pair_encoded(p),
    decreases ps.len(),
{
    if ps.len() == 1 {
        assert(ps.push(p)[0] == ps[0]);
        assert(ps.push(p).drop_first() =~= seq![p]);
        assert(pairs_encoded(seq![p]) == pair_encoded(p));
        assert(pairs_encoded(ps.push(p)) =~= pairs_encoded(ps) + seq![0x26u8] + pair_encoded(p));
    } else {
        lemma_pairs_encoded_snoc(ps.drop_first(), p);
        assert(ps.push(p)[0] == ps[0]);
        assert(ps.push(p).drop_first() =~= ps.drop_first().push(p));
        assert(pairs_encoded(ps.push(p)) =~= pairs_encoded(ps) + seq![0x26u8] + pair_encoded(p));
    }
}

/// Relies on `String::from_utf8`: bytes below `0x80` decode to exactly the
/// same characters, one per byte.
#[verifier::external_body]
fn ascii_to_string(bytes: Vec<u8>) -> (r: String)
    requires
        forall|i: int| 0 <= i < bytes@.len() ==> bytes@[i] < 0x80,
    ensures
        r@ == ascii_chars(bytes@),
{
    match String::from_utf8(bytes) {
        Ok(s) => s,
        Err(_) => String::new(),
    }
}

fn push_encoded(out: &mut Vec<u8>, s: &str)
    requires
        forall|i: int| 0 <= i < old(out)@.len() ==> old(out)@[i] < 0x80,
    ensures
        final(out)@ == old(out)@ + encoded_str(s@),
        forall|i: int| 0 <= i < final(out)@.len() ==> final(out)@[i] < 0x80,
{
    let bytes = s.as_bytes_vec();
    let ghost orig = out@;
    let mut i: usize = 0;
    while i < bytes.len()
        invariant
            i <= bytes@.len(),
            bytes@ == encode_utf8(s@),
            out@ == orig + form_encoded(bytes@.take(i as int)),
            forall|k: int| 0 <= k < orig.len() ==> orig[k] < 0x80,
            forall|k: int| 0 <= k < out@.len() ==> out@[k] < 0x80,
        decreases bytes@.len() - i,
    {
        let b = bytes[i];
        proof {
            lemma_form_encoded_snoc(bytes@.take(i as int), b);
            assert(bytes@.take(i as int + 1) =~= bytes@.take(i as int).push(b));
        }
        if b == 0x20 {
            out.push(0x2b);
        } else if is_unreserved_exec(b) {
            out.push(b);
        } else {
            out.push(0x25);
            out.push(hex_char_exec(b / 16));
            out.push(hex_char_exec(b % 16));
        }
        proof {
            assert(out@ =~= orig + form_encoded(bytes@.take(i as int + 1)));
        }
        i = i + 1;
    }
    proof {
        assert(bytes@.take(bytes@.len() as int) =~= bytes@);
    }
}

/// Renders a parameter set as its query suffix: empty when the set is empty,
/// else `?name=value&name=value&...` in form-urlencoded form.
pub fn encode_query_suffix(params: &QueryParams) -> (r: String)
    ensures
        r@ == query_suffix(params@),
{
    if params.pairs.len() == 0 {
        proof {
            assert(query_suffix(params@) =~= Seq::<char>::empty());
        }
        String::new()
    } else {
        let mut out: Vec<u8> = Vec::new();
        out.push(0x3f);
        proof {
            assert(out@ =~= seq![0x3fu8] + pairs_encoded(params@.take(0)));
        }
        let mut i: usize = 0;
        while i < params.pairs.len()
            invariant
                i <= params.pairs@.len(),
                params@.len() == params.pairs@.len(),
                out@ == seq![0x3fu8] + pairs_encoded(params@.take(i as int)),
                forall|k: int| 0 <= k < out@.len() ==> out@[k] < 0x80,
            decreases params.pairs@.len() - i,
        {
            let ghost taken = params@.take(i as int);
            if i > 0 {
                out.push(0x26);
            }
            push_encoded(&mut out, params.pairs[i].0.as_str());
            out.push(0x3d);
            push_encoded(&mut out, params.pairs[i].1.as_str());
            proof {
                let ghost pi = params.pairs@[i as int];
                assert(params@[i as int] == (pi.0@, pi.1@));
                assert(params@.take(i as int + 1) =~= taken.push(params@[i as int]));
                if i == 0 {
                    assert(pairs_encoded(params@.take(1)) == pair_encoded(params@[0]));
                    assert(out@ =~= seq![0x3fu8] + pairs_encoded(params@.take(i as int + 1)));
                } else {
                    lemma_pairs_encoded_snoc(taken, params@[i as int]);
                    assert(out@ =~= seq![0x3fu8] + pairs_encoded(params@.take(i as int + 1)));
                }
            }
            i = i + 1;
        }
        proof {
            assert(params@.take(params@.len() as int) =~= params@);
        }
        ascii_to_string(out)
    }
}

/// The parameter segment contributed by one optional field: nothing when the
/// field is absent, one `name`/`value` pair when it is present.
pub open spec fn opt_param(name: Seq<char>, v: Option<Seq<char>>) -> Seq<(Seq<char>, Seq<char>)> {
    match v {
        Option::Some(s) => seq![(name, s)],
        Option::None => Seq::empty(),
    }
}

/// The value of an optional string field.
pub open spec fn opt_str(v: Option<String>) -> Option<Seq<char>> {
    match v {
        Option::Some(s) => Option::Some(s@),
        Option::None => Option::None,
    }
}

/// The value of an optional field, rendered by the given wire function.
pub open spec fn opt_wire<T>(v: Option<T>, wire: spec_fn(T) -> Seq<char>) -> Option<Seq<char>> {
    match v {
        Option::Some(x) => Option::Some(wire(x)),
        Option::None => Option::None,
    }
}

/// The value of an optional sort specification: the wire field name of the
/// sort key, combined with the direction.
pub open spec fn opt_sort<S>(v: Option<(S, Direction)>, wire: spec_fn(S) -> Seq<char>) -> Option<
    Seq<char>,
> {
    match v {
        Option::Some(s) => Option::Some(sort_value(wire(s.0), s.1)),
        Option::None => Option::None,
    }
}

/// The combined value of a sort specification: the wire field, a colon, and
/// the direction token.
pub open spec fn sort_value(field: Seq<char>, dir: Direction) -> Seq<char> {
    field + seq![':'] + dir.wire_str()
}

/// Encodes a sort specification as one `field:direction` string.
pub fn sort_param(field: &str, dir: Direction) -> (r: String)
    ensures
        r@ == sort_value(field@, dir),
{
    proof {
        reveal_strlit(":");
        assert(":"@ =~= seq![':']);
    }
    let mut s = field.to_owned();
    s.append(":");
    s.append(dir.as_str());
    proof {
        assert(s@ =~= sort_value(field@, dir));
    }
    s
}

/// Law: a sort specification encodes as the wire field, one colon, and then
/// the direction token `asc` or `desc` — never the reverse order, never any
/// other punctuation.
pub proof fn lemma_sort_value_shape(field: Seq<char>, dir: Direction)
    ensures
        dir == Direction::Asc ==> sort_value(field, dir) == field + seq![':', 'a', 's', 'c'],
        dir == Direction::Desc ==> sort_value(field, dir) == field + seq![':', 'd', 'e', 's', 'c'],
{
    reveal_strlit("asc");
    reveal_strlit("desc");
    if dir == Direction::Asc {
        assert(sort_value(field, dir) =~= field + seq![':', 'a', 's', 'c']);
    } else {
        assert(sort_value(field, dir) =~= field + seq![':', 'd', 'e', 's', 'c']);
    }
}

} // verus!
