use vstd::prelude::*;

verus! {

/// A name/value pair seen as two character sequences.
pub type PairView = (Seq<char>, Seq<char>);

/// Names what `form_urlencoded::parse` yields for the
/// `application/x-www-form-urlencoded` text `input`: its `&`-separated
/// `name=value` pairs, percent-decoded, in order.
pub uninterp spec fn form_urlencoded_pairs(input: Seq<char>) -> Seq<PairView>;

/// An upper-case hexadecimal digit, for `0 <= n < 16`.
pub open spec fn hex_upper(n: int) -> char {
    if n < 10 {
        (48 + n) as char
    } else {
        (55 + n) as char
    }
}

/// The bytes that the `application/x-www-form-urlencoded` serializer writes
/// as they are: `*`, `-`, `.`, `_`, digits and ASCII letters.
pub open spec fn form_byte_unchanged(b: u8) -> bool {
    ||| b == 42
    ||| b == 45
    ||| b == 46
    ||| 48 <= b <= 57
    ||| 65 <= b <= 90
    ||| b == 95
    ||| 97 <= b <= 122
}

/// One byte as the serializer writes it: unchanged, `+` for a space, `%XX` otherwise.
pub open spec fn form_encode_byte(b: u8) -> Seq<char> {
    if form_byte_unchanged(b) {
        seq![b as char]
    } else if b == 32 {
        seq!['+']
    } else {
        seq!['%', hex_upper(b as int / 16), hex_upper(b as int % 16)]
    }
}

/// A byte string as the serializer writes it, byte by byte.
pub open spec fn form_encode_bytes(bytes: Seq<u8>) -> Seq<char>
    decreases bytes.len(),
{
    if bytes.len() == 0 {
        Seq::empty()
    } else {
        form_encode_bytes(bytes.drop_last()) + form_encode_byte(bytes.last())
    }
}

/// A text as the serializer writes it: its UTF-8 bytes, encoded.
pub open spec fn form_encode_text(text: Seq<char>) -> Seq<char> {
    form_encode_bytes(vstd::utf8::encode_utf8(text))
}

/// The text that `form_urlencoded::Serializer` produces for `pairs` (the
/// WHATWG `application/x-www-form-urlencoded` serializer): each name and value
/// encoded, written `name=value`, joined by `&`.
pub open spec fn form_urlencoded_serialization(pairs: Seq<PairView>) -> Seq<char> {
    join_params(pairs.map_values(|p: PairView| (form_encode_text(p.0), form_encode_text(p.1))))
}

/// Decodes the pairs of an `application/x-www-form-urlencoded` text with
/// `url::form_urlencoded::parse`. Trusted: the result is taken to be
/// `form_urlencoded_pairs(input@)`; nothing more is said of the decoding.
#[verifier::external_body]
fn parse_form_pairs(input: &str) -> (pairs: Vec<(String, String)>)
    ensures
        pairs.deep_view() == form_urlencoded_pairs(input@),
{
    url::form_urlencoded::parse(input.as_bytes()).into_owned().collect()
}

/// Encodes pairs with `url::form_urlencoded::Serializer` (`extend_pairs`, then
/// `finish`, on an empty string, no encoding override). Trusted: the result is
/// taken to be `form_urlencoded_serialization(pairs.deep_view())`, which spells
/// out what the serializer's source does: `&` before every pair but the first,
/// and each name and value byte-serialized as `name=value`.
#[verifier::external_body]
pub(crate) fn serialize_form_pairs(pairs: &Vec<(String, String)>) -> (query: String)
    ensures
        query@ == form_urlencoded_serialization(pairs.deep_view()),
{
    url::form_urlencoded::Serializer::new(String::new()).extend_pairs(pairs.iter()).finish()
}

/// The value of the first pair named `key`, if any pair has that name.
pub open spec fn first_value(pairs: Seq<PairView>, key: Seq<char>) -> Option<Seq<char>>
    decreases pairs.len(),
{
    if pairs.len() == 0 {
        None
    } else if pairs[0].0 == key {
        Some(pairs[0].1)
    } else {
        first_value(pairs.drop_first(), key)
    }
}

/// The value of the first pair named `key` is found whole: when pair `i` is
/// the first with that name, the value is exactly its value.
pub proof fn law_first_value_at(pairs: Seq<PairView>, key: Seq<char>, i: int)
    requires
        0 <= i < pairs.len(),
        pairs[i].0 == key,
        forall|j: int| 0 <= j < i ==> #[trigger] pairs[j].0 != key,
    ensures
        first_value(pairs, key) == Some(pairs[i].1),
    decreases i,
{
    if i > 0 {
        assert(pairs[0].0 != key);
        let rest = pairs.drop_first();
        assert(rest[i - 1] == pairs[i]);
        assert forall|j: int| 0 <= j < i - 1 implies #[trigger] rest[j].0 != key by {
            assert(rest[j] == pairs[j + 1]);
        }
        law_first_value_at(rest, key, i - 1);
    }
}

/// There is no value exactly when no pair is named `key`.
pub proof fn law_first_value_none(pairs: Seq<PairView>, key: Seq<char>)
    ensures
        first_value(pairs, key) is None <==> forall|j: int|
            0 <= j < pairs.len() ==> #[trigger] pairs[j].0 != key,
    decreases pairs.len(),
{
    if pairs.len() > 0 {
        let rest = pairs.drop_first();
        law_first_value_none(rest, key);
        if forall|j: int| 0 <= j < pairs.len() ==> #[trigger] pairs[j].0 != key {
            assert(pairs[0].0 != key);
            assert forall|j: int| 0 <= j < rest.len() implies #[trigger] rest[j].0 != key by {
                assert(rest[j] == pairs[j + 1]);
            }
        } else if pairs[0].0 != key {
            let i = choose|i: int| 0 <= i < pairs.len() && #[trigger] pairs[i].0 == key;
            assert(rest[i - 1] == pairs[i]);
        }
    }
}

/// The value of the first of `pairs` whose name is `key`.
pub fn find_query_value(pairs: &Vec<(String, String)>, key: &str) -> (value: Option<String>)
    ensures
        value.deep_view() == first_value(pairs.deep_view(), key@),
        value is None <==> forall|j: int| 0 <= j < pairs@.len() ==> #[trigger] pairs@[j].0@ != key@,
        forall|i: int|
            0 <= i < pairs@.len() && #[trigger] pairs@[i].0@ == key@ && (forall|j: int|
                0 <= j < i ==> #[trigger] pairs@[j].0@ != key@) ==> value is Some
                && value->Some_0@ == pairs@[i].1@,
{
    proof {
        let dv = pairs.deep_view();
        assert forall|j: int| 0 <= j < pairs@.len() implies #[trigger] dv[j] == (
        pairs@[j].0@, pairs@[j].1@) by {}
        law_first_value_none(dv, key@);
        assert((forall|j: int| 0 <= j < pairs@.len() ==> #[trigger] pairs@[j].0@ != key@) <==> (
        forall|j: int| 0 <= j < dv.len() ==> #[trigger] dv[j].0 != key@)) by {
            if forall|j: int| 0 <= j < pairs@.len() ==> #[trigger] pairs@[j].0@ != key@ {
                assert forall|j: int| 0 <= j < dv.len() implies #[trigger] dv[j].0 != key@ by {
                    assert(pairs@[j].0@ != key@);
                }
            }
            if forall|j: int| 0 <= j < dv.len() ==> #[trigger] dv[j].0 != key@ {
                assert forall|j: int| 0 <= j < pairs@.len() implies #[trigger] pairs@[j].0@ != key@ by {
                    assert(dv[j].0 != key@);
                }
            }
        }
        assert forall|i: int|
            0 <= i < pairs@.len() && #[trigger] pairs@[i].0@ == key@ && (forall|j: int|
                0 <= j < i ==> #[trigger] pairs@[j].0@ != key@) implies first_value(dv, key@)
            == Some(pairs@[i].1@) by {
            assert forall|j: int| 0 <= j < i implies #[trigger] dv[j].0 != key@ by {
                assert(pairs@[j].0@ != key@);
            }
            assert(dv[i].0 == key@);
            law_first_value_at(dv, key@, i);
        }
    }
    let wanted = String::from_str(key);
    let ghost all = pairs.deep_view();
    assert(all.skip(0) =~= all);
    let mut i: usize = 0;
    while i < pairs.len()
        invariant
            i <= pairs@.len(),
            all == pairs.deep_view(),
            wanted@ == key@,
            first_value(all, key@) == first_value(all.skip(i as int), key@),
            forall|k: int|
                0 <= k < pairs@.len() && #[trigger] pairs@[k].0@ == key@ && (forall|j: int|
                    0 <= j < k ==> #[trigger] pairs@[j].0@ != key@) ==> first_value(all, key@)
                    == Some(pairs@[k].1@),
        decreases pairs@.len() - i,
    {
        let pair = &pairs[i];
        assert(all.skip(i as int).drop_first() =~= all.skip(i as int + 1));
        assert(all.skip(i as int)[0] == (pair.0@, pair.1@));
        if pair.0 == wanted {
            let value = pair.1.clone();
            assert(first_value(all, key@) == Some(value@));
            return Some(value);
        }
        i = i + 1;
    }
    assert(all.skip(i as int).len() == 0);
    None
}

/// The value of the parameter `key` in the query string `query`, as
/// `url::form_urlencoded::parse` decodes it; the first one if it occurs twice.
pub fn get_query_value(query: &str, key: &str) -> (value: Option<String>)
    ensures
        value.deep_view() == first_value(form_urlencoded_pairs(query@), key@),
{
    let pairs = parse_form_pairs(query);
    find_query_value(&pairs, key)
}

/// The position of the pair named `name`, if any.
pub open spec fn name_index(pairs: Seq<PairView>, name: Seq<char>) -> Option<int> {
    if exists|i: int| 0 <= i < pairs.len() && #[trigger] pairs[i].0 == name {
        Some(choose|i: int| 0 <= i < pairs.len() && #[trigger] pairs[i].0 == name)
    } else {
        None
    }
}

/// No two pairs share a name.
pub open spec fn names_distinct(pairs: Seq<PairView>) -> bool {
    forall|i: int, j: int| 0 <= i < j < pairs.len() ==> pairs[i].0 != pairs[j].0
}

/// The parameters of a form, as a map from names to values: each name occurs
/// once, and the pairs keep the order in which their names were first inserted.
pub struct FormParams {
    pairs: Vec<(String, String)>,
}

impl View for FormParams {
    type V = Seq<PairView>;

    closed spec fn view(&self) -> Seq<PairView> {
        self.pairs.deep_view()
    }
}

impl FormParams {
    #[verifier::type_invariant]
    closed spec fn inv(self) -> bool {
        names_distinct(self.pairs.deep_view())
    }

    /// No parameters.
    pub fn new() -> (params: Self)
        ensures
            params@ == Seq::<PairView>::empty(),
    {
        FormParams { pairs: Vec::new() }
    }

    /// Sets the parameter `name` to `value`: replaces its value if it is
    /// already present, appends it otherwise.
    pub fn insert(&mut self, name: &str, value: &str)
        ensures
            final(self)@ == match name_index(old(self)@, name@) {
                Some(i) => old(self)@.update(i, (name@, value@)),
                None => old(self)@.push((name@, value@)),
            },
            names_distinct(final(self)@),
    {
        proof {
            use_type_invariant(&*self);
        }
        let key = String::from_str(name);
        let text = String::from_str(value);
        let ghost before = self@;
        let mut i: usize = 0;
        while i < self.pairs.len()
            invariant
                i <= self.pairs@.len(),
                before == self.pairs.deep_view(),
                before == old(self)@,
                names_distinct(before),
                forall|j: int| 0 <= j < i ==> before[j].0 != name@,
                key@ == name@,
                text@ == value@,
            decreases self.pairs@.len() - i,
        {
            if self.pairs[i].0 == key {
                assert(before[i as int].0 == name@);
                assert(name_index(before, name@) == Some(i as int)) by {
                    let k = choose|k: int| 0 <= k < before.len() && #[trigger] before[k].0 == name@;
                    assert(k == i as int);
                }
                let ghost replaced = before.update(i as int, (name@, value@));
                let mut pairs = Vec::new();
                std::mem::swap(&mut pairs, &mut self.pairs);
                pairs.set(i, (key, text));
                assert(pairs.deep_view() =~= replaced);
                assert(names_distinct(replaced));
                self.pairs = pairs;
                assert(self@ == replaced);
                return ;
            }
            i = i + 1;
        }
        assert(name_index(before, name@) is None);
        let ghost appended = before.push((name@, value@));
        let mut pairs = Vec::new();
        std::mem::swap(&mut pairs, &mut self.pairs);
        pairs.push((key, text));
        assert(pairs.deep_view() =~= appended);
        self.pairs = pairs;
    }

    /// The pairs, in order.
    pub fn pairs(&self) -> (pairs: &Vec<(String, String)>)
        ensures
            pairs.deep_view() == self@,
            names_distinct(self@),
    {
        proof {
            use_type_invariant(self);
        }
        &self.pairs
    }
}

/// `name=value`.
pub open spec fn encode_pair(pair: PairView) -> Seq<char> {
    pair.0 + seq!['='] + pair.1
}

/// The pairs written as `name=value`, joined by `&`, without any escaping.
pub open spec fn join_params(pairs: Seq<PairView>) -> Seq<char>
    decreases pairs.len(),
{
    if pairs.len() == 0 {
        Seq::empty()
    } else if pairs.len() == 1 {
        encode_pair(pairs[0])
    } else {
        join_params(pairs.drop_last()) + seq!['&'] + encode_pair(pairs.last())
    }
}

/// Writes the parameters as `name=value` joined by `&`, in their order and
/// without percent-encoding.
pub fn url_encode_params(params: &FormParams) -> (encoded: String)
    ensures
        encoded@ == join_params(params@),
{
    let pairs = params.pairs();
    let ghost all = params@;
    let mut encoded = String::new();
    let mut i: usize = 0;
    while i < pairs.len()
        invariant
            i <= pairs@.len(),
            all == pairs.deep_view(),
            encoded@ == join_params(all.take(i as int)),
        decreases pairs@.len() - i,
    {
        let pair = &pairs[i];
        assert(all.take(i as int + 1).drop_last() =~= all.take(i as int));
        assert(all.take(i as int + 1).last() == (pair.0@, pair.1@));
        if i > 0 {
            proof {
                reveal_strlit("&");
            }
            encoded.append("&");
        }
        encoded.append(pair.0.as_str());
        proof {
            reveal_strlit("=");
        }
        encoded.append("=");
        encoded.append(pair.1.as_str());
        if i == 0 {
            assert(encoded@ =~= join_params(all.take(1)));
        } else {
            assert(encoded@ =~= join_params(all.take(i as int + 1)));
        }
        i = i + 1;
    }
    assert(all.take(i as int) =~= all);
    encoded
}

} // verus!
