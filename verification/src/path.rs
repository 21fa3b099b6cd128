//! Resource paths of the two LightDB namespaces.

use vstd::prelude::*;
use vstd::string::*;

verus! {

/// The store a record lives in.
///
/// `State` keeps one mutable latest value per path; `Stream` keeps an
/// append-only series per path. The two differ only in the prefix of the
/// resource path, never in the request method.
#[derive(Debug, Clone, Copy, PartialEq, Eq, Structural)]
pub enum LightDBType {
    State,
    Stream,
}

/// The three characters that open every path of the given store.
pub open spec fn namespace_prefix(db_type: LightDBType) -> Seq<char> {
    match db_type {
        LightDBType::State => seq!['.', 'd', '/'],
        LightDBType::Stream => seq!['.', 's', '/'],
    }
}

/// The resource path of `path` in the given store: the store's prefix followed
/// by `path`, with nothing escaped, checked or removed.
pub open spec fn formatted_path(db_type: LightDBType, path: Seq<char>) -> Seq<char> {
    namespace_prefix(db_type) + path
}

/// Maps a store and a record path to the resource path that goes on the wire.
pub fn get_formatted_path(db_type: LightDBType, path: &str) -> (formatted: String)
    ensures
        formatted@ == formatted_path(db_type, path@),
{
    let mut formatted = match db_type {
        LightDBType::State => {
            proof {
                reveal_strlit(".d/");
            }
            assert(".d/"@ =~= namespace_prefix(LightDBType::State));
            String::from_str(".d/")
        },
        LightDBType::Stream => {
            proof {
                reveal_strlit(".s/");
            }
            assert(".s/"@ =~= namespace_prefix(LightDBType::Stream));
            String::from_str(".s/")
        },
    };
    formatted.append(path);
    formatted
}

/// A formatted path always names its store and its record path: stripping the
/// three-character prefix gives the record path back, and no path of the state
/// store is also a path of the stream store.
pub proof fn lemma_formatted_path_unambiguous(
    first_type: LightDBType,
    first: Seq<char>,
    second_type: LightDBType,
    second: Seq<char>,
)
    ensures
        formatted_path(first_type, first).len() == first.len() + 3,
        formatted_path(first_type, first).skip(3) == first,
        formatted_path(first_type, first) == formatted_path(second_type, second) <==> first_type
            == second_type && first == second,
{
    let a = formatted_path(first_type, first);
    let b = formatted_path(second_type, second);
    assert(a.skip(3) =~= first);
    assert(b.skip(3) =~= second);
    if a == b {
        assert(a[1] == b[1]);
        assert(first.len() == second.len());
    }
}

} // verus!
