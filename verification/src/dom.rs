//! The document model: a page's markup, queryable by element tag
//! name. Querying yields element handles holding the inner markup and
//! the attributes of each matching element, in document order. The
//! query itself is carried out by the `scraper` crate; everything
//! downstream works on the plain values it hands back.

use vstd::prelude::*;

use crate::errors::SheetError;
use crate::text::str_eq;

verus! {

/// The mathematical model of one element: its inner markup and its
/// attribute list.
pub ghost struct ElemModel {
    pub text: Seq<char>,
    pub attrs: Seq<(Seq<char>, Seq<char>)>,
}

/// One element yielded by a query: its inner markup and its
/// attributes, as name/value pairs.
#[derive(Debug, PartialEq, Eq)]
pub struct Elem {
    pub text: String,
    pub attrs: Vec<(String, String)>,
}

impl View for Elem {
    type V = ElemModel;

    open spec fn view(&self) -> ElemModel {
        ElemModel {
            text: self.text@,
            attrs: Seq::new(self.attrs@.len(), |i: int| (self.attrs@[i].0@, self.attrs@[i].1@)),
        }
    }
}

/// The models of a sequence of elements.
pub open spec fn models(s: Seq<Elem>) -> Seq<ElemModel> {
    Seq::new(s.len(), |i: int| s[i]@)
}

/// The first attribute value under `name`, if any.
pub open spec fn attr_lookup(attrs: Seq<(Seq<char>, Seq<char>)>, name: Seq<char>) -> Option<
    Seq<char>,
>
    decreases attrs.len(),
{
    if attrs.len() == 0 {
        None
    } else if attrs[0].0 == name {
        Some(attrs[0].1)
    } else {
        attr_lookup(attrs.drop_first(), name)
    }
}

/// The value of the element's attribute `name`, if any.
pub open spec fn attr_of(e: ElemModel, name: Seq<char>) -> Option<Seq<char>> {
    attr_lookup(e.attrs, name)
}

impl Elem {
    /// The value of the attribute called `name`, if the element has
    /// one.
    pub fn attr(&self, name: &str) -> (r: Option<&String>)
        ensures
            match r {
                Some(v) => attr_of(self@, name@) == Some(v@),
                None => attr_of(self@, name@) is None,
            },
    {
        let n = self.attrs.len();
        let mut i: usize = 0;
        proof {
            assert(self@.attrs.skip(0) =~= self@.attrs);
        }
        while i < n
            invariant
                i <= n,
                n == self.attrs@.len(),
                attr_lookup(self@.attrs, name@) == attr_lookup(
                    self@.attrs.skip(i as int),
                    name@,
                ),
            decreases n - i,
        {
            proof {
                assert(self@.attrs.skip(i as int).drop_first() =~= self@.attrs.skip(i + 1 as int));
                assert(self@.attrs.skip(i as int)[0] == self@.attrs[i as int]);
            }
            if str_eq(self.attrs[i].0.as_str(), name) {
                return Some(&self.attrs[i].1);
            }
            i = i + 1;
        }
        proof {
            assert(self@.attrs.skip(n as int) =~= Seq::<(Seq<char>, Seq<char>)>::empty());
        }
        None
    }
}

/// A character a tag name may hold after its first: a lowercase
/// letter, a digit or a hyphen.
pub open spec fn is_tag_char(c: char) -> bool {
    ('a' <= c && c <= 'z') || ('0' <= c && c <= '9') || c == '-'
}

/// A plain element tag name: nonempty, a lowercase letter first, then
/// letters, digits or hyphens. Every such name is a well-formed type
/// selector.
pub open spec fn valid_tag(tag: Seq<char>) -> bool {
    &&& tag.len() > 0
    &&& 'a' <= tag[0] && tag[0] <= 'z'
    &&& forall|i: int| 0 <= i < tag.len() ==> is_tag_char(#[trigger] tag[i])
}

/// What querying given markup for a tag name yields: the matching
/// elements in document order. The result depends on the markup and
/// the tag alone.
pub uninterp spec fn dom_query(markup: Seq<char>, tag: Seq<char>) -> Seq<ElemModel>;

/// A parsed page. Parsing is lenient and never fails: malformed
/// markup still yields a queryable document.
pub struct Doc {
    pub markup: String,
}

impl View for Doc {
    type V = Seq<char>;

    open spec fn view(&self) -> Seq<char> {
        self.markup@
    }
}

impl Doc {
    /// Wraps raw page markup as a queryable document.
    pub fn parse(markup: String) -> (d: Doc)
        ensures
            d@ == markup@,
    {
        Doc { markup }
    }

    /// The elements with the given tag name, in document order.
    ///
    /// Relies on `scraper::Html::parse_document`,
    /// `scraper::Selector::parse` and `scraper::Html::select`: lenient
    /// parsing never fails, a plain tag name is a well-formed
    /// selector, selection walks the tree in document order, and the
    /// outcome depends on the markup and the selector alone.
    #[verifier::external_body]
    pub fn query(&self, tag: &str) -> (r: Result<Vec<Elem>, SheetError>)
        ensures
            valid_tag(tag@) ==> r is Ok,
            r matches Ok(els) ==> models(els@) == dom_query(self@, tag@),
            r matches Err(e) ==> e is ParseFailed,
    {
        let doc = scraper::Html::parse_document(self.markup.as_str());
        let sel = match scraper::Selector::parse(tag) {
            Ok(s) => s,
            Err(_) => return Err(SheetError::ParseFailed),
        };
        Ok(doc.select(&sel).map(
            |e| Elem {
                text: e.inner_html(),
                attrs: e.value().attrs().map(|(k, v)| (k.to_string(), v.to_string())).collect(),
            },
        ).collect())
    }
}

} // verus!
