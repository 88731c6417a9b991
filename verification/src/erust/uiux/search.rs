//! The search field: its text, the records last found, and whether a search
//! is under way.

use crate::db::github::{copy_records, views, Repository, RepositoryView};
use vstd::prelude::*;

verus! {

/// A request to search the cache.
#[derive(Debug)]
pub struct FilterRequest {
    pub language: String,
    pub query: String,
}

/// A `FilterRequest` as mathematical values.
pub struct FilterRequestView {
    pub language: Seq<char>,
    pub query: Seq<char>,
}

impl DeepView for FilterRequest {
    type V = FilterRequestView;

    open spec fn deep_view(&self) -> FilterRequestView {
        FilterRequestView { language: self.language@, query: self.query@ }
    }
}

impl View for FilterRequest {
    type V = FilterRequestView;

    open spec fn view(&self) -> FilterRequestView {
        self.deep_view()
    }
}

#[derive(Debug)]
pub struct SearchWidget {
    pub query: String,
    pub results: Vec<Repository>,
    pub loading: bool,
}

/// A `SearchWidget` as mathematical values.
pub struct SearchWidgetView {
    pub query: Seq<char>,
    pub results: Seq<RepositoryView>,
    pub loading: bool,
}

impl DeepView for SearchWidget {
    type V = SearchWidgetView;

    open spec fn deep_view(&self) -> SearchWidgetView {
        SearchWidgetView {
            query: self.query@,
            results: views(self.results@),
            loading: self.loading,
        }
    }
}

impl View for SearchWidget {
    type V = SearchWidgetView;

    open spec fn view(&self) -> SearchWidgetView {
        self.deep_view()
    }
}

impl SearchWidget {
    /// An empty search field.
    pub fn new() -> (widget: Self)
        ensures
            widget@ == (SearchWidgetView {
                query: Seq::empty(),
                results: Seq::empty(),
                loading: false,
            }),
    {
        let widget = SearchWidget { query: String::new(), results: Vec::new(), loading: false };
        assert(views(widget.results@) =~= Seq::<RepositoryView>::empty());
        widget
    }

    /// Starts a search of `language` for the text of the field: marks the
    /// field as loading and builds the request that the host is to perform.
    pub fn search(&mut self, language: &str) -> (request: FilterRequest)
        ensures
            final(self)@ == (SearchWidgetView { loading: true, ..old(self)@ }),
            request@ == (FilterRequestView { language: language@, query: old(self).query@ }),
    {
        self.loading = true;
        FilterRequest { language: String::from_str(language), query: self.query.clone() }
    }

    /// Reads the slot that holds the result of the last search to finish.
    /// Where it holds one, a copy becomes the field's results and the field
    /// stops loading; where it is empty, nothing changes.
    pub fn update_results_from_ctx(&mut self, slot: &Option<Vec<Repository>>)
        ensures
            final(self)@ == match *slot {
                Some(found) => SearchWidgetView {
                    results: views(found@),
                    loading: false,
                    ..old(self)@
                },
                None => old(self)@,
            },
    {
        match slot {
            Some(found) => {
                self.results = copy_records(found);
                self.loading = false;
            },
            None => {},
        }
    }
}

} // verus!
