use vstd::prelude::*;

verus! {

/// The text of one JSON string literal holding `s`: the opening quote, the
/// characters of `s` with quotes, backslashes and control characters escaped,
/// and the closing quote.
pub uninterp spec fn json_string_of(s: Seq<char>) -> Seq<char>;

/// Relies on `serde_json::to_string` applied to a `str`: it yields one JSON
/// string literal holding `s`. A `str` serializes through `serialize_str` into
/// an in-memory `Vec<u8>`, a writer that never fails, so the error arm is
/// never taken.
#[verifier::external_body]
pub(crate) fn json_quote(s: &str) -> (r: String)
    ensures
        r@ == json_string_of(s@),
{
    match serde_json::to_string(s) {
        Ok(text) => text,
        Err(_) => String::new(),
    }
}

/// The views of a sequence of strings.
pub open spec fn string_views(items: Seq<String>) -> Seq<Seq<char>> {
    items.map_values(|s: String| s@)
}

/// Each string of `items` as a JSON string literal.
pub open spec fn quoted_all(items: Seq<String>) -> Seq<Seq<char>> {
    items.map_values(|s: String| json_string_of(s@))
}

/// The parts written one after another, with a comma between two neighbours.
pub open spec fn joined(parts: Seq<Seq<char>>) -> Seq<char>
    decreases parts.len(),
{
    if parts.len() == 0 {
        Seq::empty()
    } else if parts.len() == 1 {
        parts[0]
    } else {
        joined(parts.drop_last()) + seq![','] + parts.last()
    }
}

/// Writes the parts one after another, separated by commas.
pub fn join_comma(parts: &Vec<String>) -> (r: String)
    ensures
        r@ == joined(string_views(parts@)),
{
    let mut out = String::new();
    let mut i: usize = 0;
    proof {
        assert(string_views(parts@).take(0) =~= Seq::<Seq<char>>::empty());
    }
    while i < parts.len()
        invariant
            0 <= i <= parts.len(),
            out@ == joined(string_views(parts@).take(i as int)),
        decreases parts.len() - i,
    {
        let ghost before = out@;
        let ghost views = string_views(parts@);
        if i > 0 {
            out.append(",");
        }
        out.append(parts[i].as_str());
        proof {
            reveal_strlit(",");
            let next = views.take(i + 1);
            assert(next.drop_last() =~= views.take(i as int));
            assert(next.last() == parts@[i as int]@);
            if i == 0 {
                assert(out@ =~= next[0]);
            } else {
                assert(out@ =~= before + seq![','] + next.last());
            }
        }
        i += 1;
    }
    proof {
        assert(string_views(parts@).take(parts@.len() as int) =~= string_views(parts@));
    }
    out
}

/// A JSON array whose elements are the strings of `items`.
pub fn json_string_array(items: &Vec<String>) -> (r: String)
    ensures
        r@ == seq!['['] + joined(quoted_all(items@)) + seq![']'],
{
    let mut quoted: Vec<String> = Vec::new();
    let mut i: usize = 0;
    while i < items.len()
        invariant
            0 <= i <= items.len(),
            quoted@.len() == i,
            forall|j: int| 0 <= j < i ==> #[trigger] quoted@[j]@ == json_string_of(items@[j]@),
        decreases items.len() - i,
    {
        let q = json_quote(items[i].as_str());
        quoted.push(q);
        i += 1;
    }
    proof {
        assert(string_views(quoted@) =~= quoted_all(items@));
        reveal_strlit("[");
        reveal_strlit("]");
    }
    let inner = join_comma(&quoted);
    let mut out = String::from_str("[");
    out.append(inner.as_str());
    out.append("]");
    out
}

} // verus!
