use vstd::prelude::*;

verus! {

/// The PascalCase form of a text, exactly as `Inflector::to_pascal_case` computes it.
pub uninterp spec fn pascal_case_of(s: Seq<char>) -> Seq<char>;

/// The camelCase form of a text, exactly as `Inflector::to_camel_case` computes it.
pub uninterp spec fn camel_case_of(s: Seq<char>) -> Seq<char>;

/// The kebab-case form of a text, exactly as `Inflector::to_kebab_case` computes it.
pub uninterp spec fn kebab_case_of(s: Seq<char>) -> Seq<char>;

/// The snake_case form of a text, exactly as `Inflector::to_snake_case` computes it.
pub uninterp spec fn snake_case_of(s: Seq<char>) -> Seq<char>;

/// Relies on inflector::Inflector::to_pascal_case: the result depends on the
/// characters of the argument alone.
#[verifier::external_body]
pub fn to_pascal_case(s: &str) -> (r: String)
    ensures
        r@ == pascal_case_of(s@),
{
    inflector::Inflector::to_pascal_case(s)
}

/// Relies on inflector::Inflector::to_camel_case: the result depends on the
/// characters of the argument alone.
#[verifier::external_body]
pub fn to_camel_case(s: &str) -> (r: String)
    ensures
        r@ == camel_case_of(s@),
{
    inflector::Inflector::to_camel_case(s)
}

/// Relies on inflector::Inflector::to_kebab_case: the result depends on the
/// characters of the argument alone.
#[verifier::external_body]
pub fn to_kebab_case(s: &str) -> (r: String)
    ensures
        r@ == kebab_case_of(s@),
{
    inflector::Inflector::to_kebab_case(s)
}

/// Relies on inflector::Inflector::to_snake_case: the result depends on the
/// characters of the argument alone.
#[verifier::external_body]
pub fn to_snake_case(s: &str) -> (r: String)
    ensures
        r@ == snake_case_of(s@),
{
    inflector::Inflector::to_snake_case(s)
}

} // verus!
