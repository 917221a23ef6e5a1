use vstd::prelude::*;

verus! {

/// A list of (name, value) pairs, read as plain character sequences.
pub open spec fn pairs_view(v: Seq<(String, String)>) -> Seq<(Seq<char>, Seq<char>)> {
    v.map_values(|p: (String, String)| (p.0@, p.1@))
}

/// An optional string, read as an optional character sequence.
pub open spec fn opt_view(o: Option<String>) -> Option<Seq<char>> {
    match o {
        Some(s) => Some(s@),
        None => None,
    }
}

/// The query and the fragment of a URL, read as character sequences.
pub open spec fn parts_view(r: Option<(Option<String>, Option<String>)>) -> Option<
    (Option<Seq<char>>, Option<Seq<char>>),
> {
    match r {
        Some(p) => Some((opt_view(p.0), opt_view(p.1))),
        None => None,
    }
}

/// The decoded (name, value) pairs of an `application/x-www-form-urlencoded` string.
pub uninterp spec fn form_pairs_of(s: Seq<char>) -> Seq<(Seq<char>, Seq<char>)>;

/// The `application/x-www-form-urlencoded` serialization of a list of pairs.
pub uninterp spec fn form_encoded_of(pairs: Seq<(Seq<char>, Seq<char>)>) -> Seq<char>;

/// The query and the fragment of a URL, or `None` where the text is no URL.
pub uninterp spec fn url_parts_of(s: Seq<char>) -> Option<(Option<Seq<char>>, Option<Seq<char>>)>;

/// Relies on `url::form_urlencoded::parse` (with `into_owned`): the percent-decoded
/// pairs of the input, in order; an empty input holds none.
#[verifier::external_body]
fn decode_form_pairs(s: &str) -> (r: Vec<(String, String)>)
    ensures
        pairs_view(r@) == form_pairs_of(s@),
        s@.len() == 0 ==> r@.len() == 0,
{
    url::form_urlencoded::parse(s.as_bytes()).into_owned().collect()
}

/// Relies on `url::form_urlencoded::Serializer` (`new`, `extend_pairs`, `finish`): the
/// pairs, percent-encoded, in order.
#[verifier::external_body]
pub(crate) fn encode_form_pairs(pairs: &Vec<(String, String)>) -> (r: String)
    ensures
        r@ == form_encoded_of(pairs_view(pairs@)),
{
    url::form_urlencoded::Serializer::new(String::new()).extend_pairs(pairs.iter()).finish()
}

/// Relies on `url::Url::parse`, and on `Url::query` and `Url::fragment` of the URL it
/// returns: `None` where the text does not parse as a URL.
#[verifier::external_body]
fn parse_url_parts(s: &str) -> (r: Option<(Option<String>, Option<String>)>)
    ensures
        parts_view(r) == url_parts_of(s@),
{
    match url::Url::parse(s) {
        Ok(u) => Some((u.query().map(String::from), u.fragment().map(String::from))),
        Err(_) => None,
    }
}

/// The value of the first pair named `key`.
pub open spec fn lookup(pairs: Seq<(Seq<char>, Seq<char>)>, key: Seq<char>) -> Option<Seq<char>>
    decreases pairs.len(),
{
    if pairs.len() == 0 {
        None
    } else if pairs[0].0 == key {
        Some(pairs[0].1)
    } else {
        lookup(pairs.drop_first(), key)
    }
}

/// The value of `key` in the query pairs, or else in the fragment pairs.
pub open spec fn lookup_either(
    query: Seq<(Seq<char>, Seq<char>)>,
    fragment: Seq<(Seq<char>, Seq<char>)>,
    key: Seq<char>,
) -> Option<Seq<char>> {
    match lookup(query, key) {
        Some(v) => Some(v),
        None => lookup(fragment, key),
    }
}

/// The decoded pairs of an optional URL component; an absent component holds none.
pub open spec fn component_pairs(c: Option<Seq<char>>) -> Seq<(Seq<char>, Seq<char>)> {
    match c {
        Some(s) => form_pairs_of(s),
        None => Seq::empty(),
    }
}

/// The parameter `key` of a callback URL, looked up in its query and then in its
/// fragment; `None` where the text is no URL.
pub open spec fn callback_param(url: Seq<char>, key: Seq<char>) -> Option<Option<Seq<char>>> {
    match url_parts_of(url) {
        Some(p) => Some(lookup_either(component_pairs(p.0), component_pairs(p.1), key)),
        None => None,
    }
}

/// The token and the state of a callback whose fragment reads `id_token=T&state=S`
/// come back as `T` and `S`, where the query names neither.
pub proof fn lemma_callback_fragment_round_trip(
    query: Seq<(Seq<char>, Seq<char>)>,
    token: Seq<char>,
    state: Seq<char>,
)
    requires
        lookup(query, "id_token"@) is None,
        lookup(query, "state"@) is None,
    ensures
        lookup_either(query, seq![("id_token"@, token), ("state"@, state)], "id_token"@) == Some(
            token,
        ),
        lookup_either(query, seq![("id_token"@, token), ("state"@, state)], "state"@) == Some(
            state,
        ),
{
    reveal_strlit("id_token");
    reveal_strlit("state");
    assert("id_token"@[0] != "state"@[0]);
    let f = seq![("id_token"@, token), ("state"@, state)];
    assert(f.drop_first()[0] == ("state"@, state));
    assert(lookup(f.drop_first(), "state"@) == Some(state));
    assert(lookup(f, "state"@) == Some(state));
}

/// A callback that names no state anywhere carries none: reading its state succeeds
/// with nothing.
pub proof fn lemma_callback_without_state(url: Seq<char>)
    requires
        url_parts_of(url) matches Some(p) && lookup(component_pairs(p.0), "state"@) is None
            && lookup(component_pairs(p.1), "state"@) is None,
    ensures
        callback_param(url, "state"@) == Some(None::<Seq<char>>),
{
}

/// The value of the first pair named `key`, if any.
pub fn find_param(pairs: &Vec<(String, String)>, key: &str) -> (r: Option<String>)
    ensures
        opt_view(r) == lookup(pairs_view(pairs@), key@),
{
    let ghost pv = pairs_view(pairs@);
    let k = String::from_str(key);
    let mut i: usize = 0;
    assert(pv.subrange(0, pv.len() as int) =~= pv);
    while i < pairs.len()
        invariant
            i <= pairs.len(),
            pv == pairs_view(pairs@),
            k@ == key@,
            lookup(pv, key@) == lookup(pv.subrange(i as int, pv.len() as int), key@),
        decreases pairs.len() - i,
    {
        let ghost rest = pv.subrange(i as int, pv.len() as int);
        assert(rest.drop_first() =~= pv.subrange(i + 1, pv.len() as int));
        if pairs[i].0 == k {
            return Some(pairs[i].1.clone());
        }
        i = i + 1;
    }
    assert(pv.subrange(i as int, pv.len() as int).len() == 0);
    None
}

/// The value of `key` among the query pairs, or else among the fragment pairs.
pub fn find_param_in_parts(
    query_pairs: &Vec<(String, String)>,
    fragment_pairs: &Vec<(String, String)>,
    key: &str,
) -> (r: Option<String>)
    ensures
        opt_view(r) == lookup_either(pairs_view(query_pairs@), pairs_view(fragment_pairs@), key@),
{
    match find_param(query_pairs, key) {
        Some(v) => Some(v),
        None => find_param(fragment_pairs, key),
    }
}

/// The decoded pairs of an optional URL component.
fn pairs_of_component(c: &Option<String>) -> (r: Vec<(String, String)>)
    ensures
        pairs_view(r@) == component_pairs(opt_view(*c)),
{
    match c {
        Some(s) => decode_form_pairs(s.as_str()),
        None => {
            let v: Vec<(String, String)> = Vec::new();
            assert(pairs_view(v@) =~= Seq::empty());
            v
        },
    }
}

/// The parameter `key` of a callback URL, looked up in its query and then in its
/// fragment; `None` where the text does not parse as a URL.
pub fn read_callback_param(callback_url: &str, key: &str) -> (r: Option<Option<String>>)
    ensures
        callback_param(callback_url@, key@) == match r {
            Some(v) => Some(opt_view(v)),
            None => None,
        },
{
    match parse_url_parts(callback_url) {
        None => None,
        Some((query, fragment)) => {
            let query_pairs = pairs_of_component(&query);
            let fragment_pairs = pairs_of_component(&fragment);
            Some(find_param_in_parts(&query_pairs, &fragment_pairs, key))
        },
    }
}

} // verus!
