//! The script part of a rendered page: tags for the scripts that the
//! settings list, and one element for the scripts kept in files.

use vstd::prelude::*;
use crate::text::{replace, replaced, trim, trimmed};

verus! {

/// The YAML document that `serde_yaml::to_string` writes for a string value
/// (`Some`) or for the null value (`None`); `None` where the crate reports
/// an error.
pub uninterp spec fn yaml_document(value: Option<Seq<char>>) -> Option<Seq<char>>;

/// Calls `serde_yaml::to_string` on `Value::String` of the text, or on
/// `Value::Null` where there is none. The contract gives the outcome a name
/// and claims that it depends on the value alone.
#[verifier::external_body]
fn to_yaml(value: &Option<String>) -> (document: Option<String>)
    ensures
        match document {
            Some(text) => yaml_document(text_of(*value)) == Some(text@),
            None => yaml_document(text_of(*value)) is None,
        },
{
    let value = match value {
        Some(text) => serde_yaml::Value::String(text.clone()),
        None => serde_yaml::Value::Null,
    };
    serde_yaml::to_string(&value).ok()
}

/// The mathematical content of an optional text.
pub open spec fn text_of(value: Option<String>) -> Option<Seq<char>> {
    match value {
        Some(text) => Some(text@),
        None => None,
    }
}

/// One entry of a list in the settings.
#[derive(Clone, Debug, PartialEq, Eq)]
pub enum SettingItem {
    /// A string.
    Text(String),
    /// Any other value.
    Other,
}

/// A value in the settings, as far as the page builder reads it.
#[derive(Clone, Debug, PartialEq, Eq)]
pub enum Setting {
    /// A list.
    Sequence(Vec<SettingItem>),
    /// Any other value.
    Other,
}

/// The tag that loads the script at `source`.
pub open spec fn script_tag(source: Seq<char>) -> Seq<char> {
    "<script src=\""@ + source + "\"></script>\n"@
}

/// One tag for each string in the list, in the list's order.
pub open spec fn script_tags(items: Seq<SettingItem>) -> Seq<char>
    decreases items.len(),
{
    if items.len() == 0 {
        Seq::empty()
    } else {
        script_tags(items.drop_last()) + match items.last() {
            SettingItem::Text(source) => script_tag(source@),
            SettingItem::Other => Seq::empty(),
        }
    }
}

/// The tags for a list of scripts; nothing where the setting is no list.
pub open spec fn cdn_tags(setting: Setting) -> Option<Seq<char>> {
    match setting {
        Setting::Sequence(items) => Some(script_tags(items@)),
        Setting::Other => None,
    }
}

/// The texts one after the other, each followed by a line break.
pub open spec fn joined_lines(texts: Seq<String>) -> Seq<char>
    decreases texts.len(),
{
    if texts.len() == 0 {
        Seq::empty()
    } else {
        joined_lines(texts.drop_last()) + texts.last()@ + "\n"@
    }
}

/// A script element around `content`.
pub open spec fn script_element(content: Seq<char>) -> Seq<char> {
    "<script>"@ + content + "</script>"@
}

/// What a YAML document looks like on the page: block markers at line ends
/// dropped, white space at both ends removed. A failed document is empty.
pub open spec fn page_text(document: Option<Seq<char>>) -> Seq<char> {
    match document {
        Some(text) => trimmed(replaced(text, "|\n"@, "\n"@)),
        None => trimmed(replaced(Seq::empty(), "|\n"@, "\n"@)),
    }
}

/// Script injection for rendered pages.
pub struct PrimeDownInjectJS;

impl PrimeDownInjectJS {
    /// One tag for each string in `items`.
    pub fn generate_script_tags(items: &Vec<SettingItem>) -> (tags: String)
        ensures
            tags@ == script_tags(items@),
    {
        let mut tags = String::new();
        let mut i: usize = 0;
        assert(items@.take(0) =~= Seq::<SettingItem>::empty());
        while i < items.len()
            invariant
                i <= items.len(),
                tags@ == script_tags(items@.take(i as int)),
            decreases items.len() - i,
        {
            proof {
                assert(items@.take(i + 1).drop_last() =~= items@.take(i as int));
                assert(items@.take(i + 1).last() == items@[i as int]);
            }
            match &items[i] {
                SettingItem::Text(source) => {
                    let ghost before = tags@;
                    tags.append("<script src=\"");
                    tags.append(source.as_str());
                    tags.append("\"></script>\n");
                    assert(tags@ =~= before + script_tag(source@));
                },
                SettingItem::Other => {
                    assert(tags@ + Seq::<char>::empty() =~= tags@);
                },
            }
            i += 1;
        }
        assert(items@.take(items.len() as int) =~= items@);
        tags
    }

    /// The tags for the scripts that `setting` lists; `None` where it is no
    /// list.
    pub fn from_cdn(setting: &Setting) -> (tags: Option<String>)
        ensures
            text_of(tags) == cdn_tags(*setting),
    {
        match setting {
            Setting::Sequence(items) => Some(Self::generate_script_tags(items)),
            Setting::Other => None,
        }
    }

    /// The tags for the scripts that `setting` lists, as they are put on the
    /// page: written as a YAML document and then cleaned of what YAML added
    /// at the line ends and around the text.
    pub fn load_from_cdn(setting: &Setting) -> (text: String)
        ensures
            text@ == page_text(yaml_document(cdn_tags(*setting))),
    {
        let tags = Self::from_cdn(setting);
        let document = match to_yaml(&tags) {
            Some(text) => text,
            None => String::new(),
        };
        let unmarked = replace(document.as_str(), "|\n", "\n");
        trim(unmarked.as_str())
    }

    /// The contents of the script files, each followed by a line break.
    pub fn join_sources(sources: &Vec<String>) -> (content: String)
        ensures
            content@ == joined_lines(sources@),
    {
        let mut content = String::new();
        let mut i: usize = 0;
        assert(sources@.take(0) =~= Seq::<String>::empty());
        while i < sources.len()
            invariant
                i <= sources.len(),
                content@ == joined_lines(sources@.take(i as int)),
            decreases sources.len() - i,
        {
            proof {
                assert(sources@.take(i + 1).drop_last() =~= sources@.take(i as int));
                assert(sources@.take(i + 1).last() == sources@[i as int]);
            }
            content.append(sources[i].as_str());
            content.append("\n");
            i += 1;
        }
        assert(sources@.take(sources.len() as int) =~= sources@);
        content
    }

    /// A script element around `content`.
    pub fn wrap_script(content: &str) -> (element: String)
        ensures
            element@ == script_element(content@),
    {
        let mut element = "<script>".to_owned();
        element.append(content);
        element.append("</script>");
        element
    }
}

} // verus!
