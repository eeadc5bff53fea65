//! Price levels as venues send them: `[price, amount]` pairs of decimal text.
use vstd::prelude::*;
use crate::json::{as_array, as_str, json_of, Json};

verus! {

/// A level as two texts, if the document is an array of exactly two strings.
pub open spec fn level_of(j: Json) -> Option<(Seq<char>, Seq<char>)> {
    match j {
        Json::Arr(xs) => if xs.len() == 2 && xs[0] is Str && xs[1] is Str {
            Some((xs[0]->Str_0, xs[1]->Str_0))
        } else {
            None
        },
        _ => None,
    }
}

/// The levels of an array whose every element is a level.
pub open spec fn levels_of(j: Json) -> Option<Seq<(Seq<char>, Seq<char>)>> {
    match j {
        Json::Arr(xs) => if forall|i: int| 0 <= i < xs.len() ==> (#[trigger] level_of(xs[i])) is Some {
            Some(xs.map_values(|x: Json| level_of(x).unwrap()))
        } else {
            None
        },
        _ => None,
    }
}

/// A level of text as its two texts.
pub open spec fn text_level(l: [String; 2]) -> (Seq<char>, Seq<char>) {
    (l@[0]@, l@[1]@)
}

/// The texts of a sequence of levels.
pub open spec fn text_levels(v: Seq<[String; 2]>) -> Seq<(Seq<char>, Seq<char>)> {
    v.map_values(|l: [String; 2]| text_level(l))
}

/// Reads an array of `[price, amount]` string pairs, in order.
pub fn decode_levels(v: &serde_json::Value) -> (r: Option<Vec<[String; 2]>>)
    ensures
        r.is_some() == levels_of(json_of(*v)).is_some(),
        r.is_some() ==> levels_of(json_of(*v)) == Some(text_levels(r.unwrap()@)),
{
    let items = match as_array(v) {
        Some(a) => a,
        None => return None,
    };
    let ghost xs = items@.map_values(|x: serde_json::Value| json_of(x));
    let mut out: Vec<[String; 2]> = Vec::new();
    let mut i: usize = 0;
    while i < items.len()
        invariant
            xs == items@.map_values(|x: serde_json::Value| json_of(x)),
            json_of(*v) == Json::Arr(xs),
            i <= items@.len(),
            out@.len() == i,
            forall|k: int| 0 <= k < i ==> (#[trigger] level_of(xs[k])) == Some(text_level(out@[k])),
        decreases items@.len() - i,
    {
        let pair = match as_array(&items[i]) {
            Some(p) => p,
            None => {
                assert(level_of(xs[i as int]) is None);
                return None;
            },
        };
        if pair.len() != 2 {
            assert(level_of(xs[i as int]) is None);
            return None;
        }
        let price = match as_str(&pair[0]) {
            Some(t) => t.to_owned(),
            None => {
                assert(level_of(xs[i as int]) is None);
                return None;
            },
        };
        let amount = match as_str(&pair[1]) {
            Some(t) => t.to_owned(),
            None => {
                assert(level_of(xs[i as int]) is None);
                return None;
            },
        };
        let level: [String; 2] = [price, amount];
        out.push(level);
        proof {
            assert(level_of(xs[i as int]) == Some(text_level(out@[i as int])));
        }
        i = i + 1;
    }
    proof {
        let lv = text_levels(out@);
        assert(levels_of(json_of(*v)) is Some);
        assert(xs.map_values(|x: Json| level_of(x).unwrap()) =~= lv);
    }
    Some(out)
}

} // verus!
