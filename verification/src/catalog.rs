//! The message catalog: which template a code has in which locale.
//!
//! A catalog is loaded once and read from then on. Its entries keep the
//! order in which they were added, and where two entries give a template
//! for the same code and locale the earlier one counts.

use crate::json::{json_parsed, member_views, parse_json, JsonMember, JsonValue, JsonView};
use vstd::prelude::*;
use vstd::string::StringExecFns;

verus! {

/// One template of the catalog.
#[derive(Debug)]
pub struct CatalogEntry {
    /// The locale tag the template is written in.
    pub locale: String,
    /// The code the template belongs to.
    pub code: String,
    /// The template text, with its placeholders.
    pub template: String,
}

/// A [`CatalogEntry`] as a mathematical value.
pub struct EntryView {
    pub locale: Seq<char>,
    pub code: Seq<char>,
    pub template: Seq<char>,
}

impl View for CatalogEntry {
    type V = EntryView;

    open spec fn view(&self) -> EntryView {
        EntryView { locale: self.locale@, code: self.code@, template: self.template@ }
    }
}

/// The template of the first entry at or behind position `from` that is
/// written in `locale` for `code`.
pub open spec fn lookup_from(
    entries: Seq<EntryView>,
    code: Seq<char>,
    locale: Seq<char>,
    from: int,
) -> Option<Seq<char>>
    decreases entries.len() - from,
{
    if from < 0 || from >= entries.len() {
        None
    } else if entries[from].code == code && entries[from].locale == locale {
        Some(entries[from].template)
    } else {
        lookup_from(entries, code, locale, from + 1)
    }
}

/// The template that `entries` hold for `code` in `locale`, if any.
pub open spec fn lookup(entries: Seq<EntryView>, code: Seq<char>, locale: Seq<char>) -> Option<
    Seq<char>,
> {
    lookup_from(entries, code, locale, 0)
}

/// A lookup finds a template exactly where some entry is written in the
/// locale for the code.
pub proof fn lemma_lookup_some(
    entries: Seq<EntryView>,
    code: Seq<char>,
    locale: Seq<char>,
    from: int,
)
    requires
        0 <= from,
    ensures
        lookup_from(entries, code, locale, from) is Some <==> exists|i: int|
            from <= i < entries.len() && (#[trigger] entries[i]).code == code && entries[i].locale
                == locale,
    decreases entries.len() - from,
{
    if from < entries.len() {
        lemma_lookup_some(entries, code, locale, from + 1);
        if entries[from].code == code && entries[from].locale == locale {
        } else if lookup_from(entries, code, locale, from) is Some {
            let i = choose|i: int|
                from + 1 <= i < entries.len() && (#[trigger] entries[i]).code == code
                    && entries[i].locale == locale;
            assert(from <= i < entries.len() && entries[i].code == code && entries[i].locale
                == locale);
        }
    }
}

/// The code of a template that stands under `key` inside the object with
/// the code `prefix`: the two joined by a dot, or the key alone at the top
/// of a document.
pub open spec fn joined_code(prefix: Seq<char>, key: Seq<char>) -> Seq<char> {
    if prefix.len() == 0 {
        key
    } else {
        prefix + "."@ + key
    }
}

/// The templates that a part of a catalog document gives for `locale`: a
/// text is the template of the code that leads to it, an object gives the
/// templates of its members in their order, and anything else gives none.
pub open spec fn value_entries(locale: Seq<char>, code: Seq<char>, value: JsonView) -> Seq<
    EntryView,
>
    decreases value,
{
    match value {
        JsonView::Text(template) => seq![EntryView { locale, code, template }],
        JsonView::Object(members) => members_entries(locale, code, members),
        _ => Seq::empty(),
    }
}

/// The templates that the members of an object give, member by member.
pub open spec fn members_entries(
    locale: Seq<char>,
    prefix: Seq<char>,
    members: Seq<(Seq<char>, JsonView)>,
) -> Seq<EntryView>
    decreases members,
{
    if members.len() == 0 {
        Seq::empty()
    } else {
        members_entries(locale, prefix, members.drop_last()) + value_entries(
            locale,
            joined_code(prefix, members.last().0),
            members.last().1,
        )
    }
}

/// The templates that a catalog document gives for `locale`. The document
/// is an object; a text nested in it under the keys `a` and `b` is the
/// template of the code `a.b`. Any other document gives no template.
pub open spec fn document_entries(locale: Seq<char>, document: JsonView) -> Seq<EntryView> {
    match document {
        JsonView::Object(members) => members_entries(locale, Seq::empty(), members),
        _ => Seq::empty(),
    }
}

/// The templates of an application, by code and locale, and the locale to
/// fall back on.
#[derive(Debug)]
pub struct Catalog {
    entries: Vec<CatalogEntry>,
    default_locale: String,
}

/// A [`Catalog`] as a mathematical value.
pub struct CatalogView {
    pub entries: Seq<EntryView>,
    pub default_locale: Seq<char>,
}

impl CatalogView {
    /// The template for `code` in `locale`, if the catalog has one.
    pub open spec fn lookup(self, code: Seq<char>, locale: Seq<char>) -> Option<Seq<char>> {
        lookup(self.entries, code, locale)
    }
}

impl View for Catalog {
    type V = CatalogView;

    closed spec fn view(&self) -> CatalogView {
        CatalogView {
            entries: Seq::new(self.entries.len() as nat, |i: int| self.entries[i]@),
            default_locale: self.default_locale@,
        }
    }
}

impl Catalog {
    /// A catalog without templates that falls back on `default_locale`.
    pub fn new(default_locale: &str) -> (catalog: Catalog)
        ensures
            catalog@.entries.len() == 0,
            catalog@.default_locale == default_locale@,
    {
        Catalog { entries: Vec::new(), default_locale: default_locale.to_owned() }
    }

    /// Adds a template behind those the catalog holds.
    pub fn add(&mut self, locale: &str, code: &str, template: &str)
        ensures
            final(self)@.entries == old(self)@.entries.push(
                EntryView { locale: locale@, code: code@, template: template@ },
            ),
            final(self)@.default_locale == old(self)@.default_locale,
    {
        self.entries.push(
            CatalogEntry {
                locale: locale.to_owned(),
                code: code.to_owned(),
                template: template.to_owned(),
            },
        );
        assert(self@.entries =~= old(self)@.entries.push(
            EntryView { locale: locale@, code: code@, template: template@ },
        ));
    }

    /// Adds the templates that a part of a document gives.
    fn add_value(&mut self, locale: &str, code: &str, value: &JsonValue)
        ensures
            final(self)@.entries == old(self)@.entries + value_entries(locale@, code@, value@),
            final(self)@.default_locale == old(self)@.default_locale,
        decreases value,
    {
        match value {
            JsonValue::Text(template) => {
                self.add(locale, code, template.as_str());
                assert(self@.entries =~= old(self)@.entries + value_entries(
                    locale@,
                    code@,
                    value@,
                ));
            },
            JsonValue::Object(members) => {
                self.add_members(locale, code, members);
                assert(member_views(members@) =~= value@->Object_0);
            },
            _ => {
                assert(self@.entries =~= old(self)@.entries + value_entries(
                    locale@,
                    code@,
                    value@,
                ));
            },
        }
    }

    /// Adds the templates that the members of an object give.
    fn add_members(&mut self, locale: &str, prefix: &str, members: &Vec<JsonMember>)
        ensures
            final(self)@.entries == old(self)@.entries + members_entries(
                locale@,
                prefix@,
                member_views(members@),
            ),
            final(self)@.default_locale == old(self)@.default_locale,
        decreases members,
    {
        let ghost views = member_views(members@);
        let ghost before = self@.entries;
        let mut i: usize = 0;
        assert(self@.entries =~= before + members_entries(locale@, prefix@, views.take(0)));
        while i < members.len()
            invariant
                i <= members.len(),
                views == member_views(members@),
                self@.entries == before + members_entries(locale@, prefix@, views.take(i as int)),
                self@.default_locale == old(self)@.default_locale,
            decreases members.len() - i,
        {
            let code = if prefix.is_empty() {
                members[i].key.clone()
            } else {
                String::from_str(prefix).concat(".").concat(members[i].key.as_str())
            };
            assert(code@ == joined_code(prefix@, views[i as int].0));
            self.add_value(locale, code.as_str(), &members[i].value);
            proof {
                assert(views.take(i + 1).drop_last() =~= views.take(i as int));
                assert(views.take(i + 1).last() == views[i as int]);
                assert(self@.entries =~= before + members_entries(
                    locale@,
                    prefix@,
                    views.take(i + 1),
                ));
            }
            i = i + 1;
        }
        assert(views.take(i as int) =~= views);
    }

    /// Adds the templates of a catalog document for `locale`, behind those
    /// the catalog holds.
    pub fn add_document(&mut self, locale: &str, document: &JsonValue)
        ensures
            final(self)@.entries == old(self)@.entries + document_entries(locale@, document@),
            final(self)@.default_locale == old(self)@.default_locale,
    {
        match document {
            JsonValue::Object(members) => {
                self.add_members(locale, "", members);
                proof {
                    reveal_strlit("");
                    assert(""@ =~= Seq::<char>::empty());
                    assert(member_views(members@) =~= document@->Object_0);
                }
            },
            _ => {
                assert(self@.entries =~= old(self)@.entries + document_entries(
                    locale@,
                    document@,
                ));
            },
        }
    }

    /// Reads a catalog document for `locale` from the bytes of a file and
    /// adds its templates. Bytes that are no JSON text add nothing, and
    /// the answer is `false`.
    pub fn load_document(&mut self, locale: &str, bytes: &[u8]) -> (read: bool)
        ensures
            read == (json_parsed(bytes@) is Some),
            final(self)@.entries == old(self)@.entries + match json_parsed(bytes@) {
                Some(document) => document_entries(locale@, document),
                None => Seq::empty(),
            },
            final(self)@.default_locale == old(self)@.default_locale,
    {
        match parse_json(bytes) {
            Some(document) => {
                self.add_document(locale, &document);
                true
            },
            None => {
                assert(self@.entries =~= old(self)@.entries + Seq::<EntryView>::empty());
                false
            },
        }
    }

    /// The number of templates.
    pub fn len(&self) -> (n: usize)
        ensures
            n == self@.entries.len(),
    {
        self.entries.len()
    }

    /// The locale to fall back on.
    pub fn default_locale(&self) -> (locale: &String)
        ensures
            locale@ == self@.default_locale,
    {
        &self.default_locale
    }

    /// The template for `code` in `locale`, if the catalog has one.
    pub fn lookup(&self, code: &str, locale: &str) -> (found: Option<&String>)
        ensures
            found is Some <==> self@.lookup(code@, locale@) is Some,
            found matches Some(template) ==> self@.lookup(code@, locale@) == Some(template@),
    {
        let wanted_code = code.to_owned();
        let wanted_locale = locale.to_owned();
        let mut i: usize = 0;
        while i < self.entries.len()
            invariant
                i <= self.entries.len(),
                wanted_code@ == code@,
                wanted_locale@ == locale@,
                self@.lookup(code@, locale@) == lookup_from(self@.entries, code@, locale@, i as int),
            decreases self.entries.len() - i,
        {
            if self.entries[i].code == wanted_code && self.entries[i].locale == wanted_locale {
                return Some(&self.entries[i].template);
            }
            i = i + 1;
        }
        None
    }
}

} // verus!
