//! List items.
use vstd::prelude::*;

verus! {

/// An item of a list: a label and optional associated data.
#[derive(Debug, Clone)]
pub struct ListItem {
    pub label: String,
    pub data: Option<String>,
}

impl ListItem {
    /// An item labelled `label`, without data.
    pub fn new(label: &str) -> (r: ListItem)
        ensures
            r.label@ == label@,
            r.data is None,
    {
        ListItem { label: label.to_owned(), data: None }
    }

    /// An item labelled `label` carrying `data`.
    pub fn with_data(label: &str, data: &str) -> (r: ListItem)
        ensures
            r.label@ == label@,
            r.data matches Some(d) && d@ == data@,
    {
        ListItem { label: label.to_owned(), data: Some(data.to_owned()) }
    }
}

} // verus!
