//! The tag record: what one row of the store's tag relation carries.

use vstd::prelude::*;

verus! {

/// One tag record as read from the store. Immutable once built; owned by the
/// response being assembled.
#[derive(Clone, Debug)]
pub struct Tag {
    pub id: i32,
    pub name: String,
    pub post_count: i32,
    pub category: i16,
    pub antecedent_name: Option<String>,
}

/// The mathematical shape of a tag record.
pub struct TagView {
    pub id: int,
    pub name: Seq<char>,
    pub post_count: int,
    pub category: int,
    pub antecedent_name: Option<Seq<char>>,
}

impl View for Tag {
    type V = TagView;

    open spec fn view(&self) -> TagView {
        TagView {
            id: self.id as int,
            name: self.name@,
            post_count: self.post_count as int,
            category: self.category as int,
            antecedent_name: match self.antecedent_name {
                Option::Some(s) => Option::Some(s@),
                Option::None => Option::None,
            },
        }
    }
}

/// The records of a sequence of tags, as mathematical values.
pub open spec fn views_of(ts: Seq<Tag>) -> Seq<TagView> {
    ts.map_values(|t: Tag| t@)
}

} // verus!
