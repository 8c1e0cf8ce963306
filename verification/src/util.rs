//! Where the `isit` crate is found from the crate that uses it.

use vstd::prelude::*;

verus! {

/// How the crate that uses a macro refers to `isit`.
pub enum FoundCrate {
    /// The using crate is `isit` itself.
    Itself,
    /// The using crate depends on `isit` under this name.
    Name(String),
}

/// The source of the path to `isit`: `crate` from within `isit` itself, else
/// the name from the crate root, `::name`.
pub open spec fn crate_path_text(found: FoundCrate) -> Seq<char> {
    match found {
        FoundCrate::Itself => "crate"@,
        FoundCrate::Name(name) => "::"@ + name@,
    }
}

/// The path by which the using crate reaches `isit`.
pub fn isit_crate_path(found: FoundCrate) -> (r: String)
    ensures
        r@ == crate_path_text(found),
{
    match found {
        FoundCrate::Itself => String::from_str("crate"),
        FoundCrate::Name(name) => {
            let mut path = String::from_str("::");
            path.append(name.as_str());
            path
        },
    }
}

/// The path to `isit` is `crate` from within `isit`, and otherwise `::`
/// followed by exactly the name under which the using crate found it.
pub proof fn law_crate_path(found: FoundCrate)
    ensures
        found is Itself ==> crate_path_text(found) == "crate"@,
        found matches FoundCrate::Name(name) ==> crate_path_text(found) == "::"@ + name@
            && crate_path_text(found).subrange(2, crate_path_text(found).len() as int) == name@,
{
    if let FoundCrate::Name(name) = found {
        reveal_strlit("::");
        assert(("::"@ + name@).subrange(2, ("::"@ + name@).len() as int) =~= name@);
    }
}

} // verus!
