//! Filling the placeholders of a message template.
//!
//! Templates mark a placeholder by a name in double braces, as in
//! `Hello, {{name}}!`. The substitution itself is the work of the
//! `string_template` crate; this module gives its result a name that the
//! contracts of the library can speak of.

use crate::args::Args;
use std::collections::HashMap;
use vstd::prelude::*;

verus! {

/// The text that `string_template` renders from `template` when each
/// placeholder whose name is a key of `args` is given the value under that
/// key.
pub uninterp spec fn rendered_template(
    template: Seq<char>,
    args: Map<Seq<char>, Seq<char>>,
) -> Seq<char>;

/// Renders `template` with `string_template::Template::new` and
/// `Template::render`, handing over the entries of `args` as the values.
///
/// Trusted: the result is taken to depend on the template's text and on the
/// mapping alone. The entries are handed over one for one; no key occurs
/// twice among them, as it is with every [`Args`].
#[verifier::external_body]
pub(crate) fn render_template(template: &str, args: &Args) -> (text: String)
    ensures
        text@ == rendered_template(template@, args@),
{
    let mut values: HashMap<&str, &str> = HashMap::new();
    for i in 0..args.len() {
        values.insert(args.key_at(i).as_str(), args.value_at(i).as_str());
    }
    string_template::Template::new(template).render(&values)
}

} // verus!
