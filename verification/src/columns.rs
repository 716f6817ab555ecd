//! Column selection by a pattern over the header names.

use crate::pattern::{accepted, meaning, PatternModel};
use regex::Regex;
use vstd::prelude::*;

verus! {

/// The positions of the headers that belong to `lang`, in ascending order.
pub open spec fn matching_columns(lang: Set<Seq<char>>, headers: Seq<Seq<char>>) -> Seq<usize>
    decreases headers.len(),
{
    if headers.len() == 0 {
        Seq::empty()
    } else {
        let before = matching_columns(lang, headers.drop_last());
        if lang.contains(headers.last()) {
            before.push((headers.len() - 1) as usize)
        } else {
            before
        }
    }
}

/// Every position of a header list, in order.
pub open spec fn all_columns(headers: Seq<Seq<char>>) -> Seq<usize> {
    Seq::new(headers.len(), |i: int| i as usize)
}

/// The header names at the given positions.
pub open spec fn headers_at(headers: Seq<Seq<char>>, indices: Seq<usize>) -> Seq<Seq<char>> {
    Seq::new(indices.len(), |k: int| headers[indices[k] as int])
}

/// What a column filter is.
pub struct ColumnsModel {
    /// The pattern that selects the columns.
    pub pattern: PatternModel,
    /// The retained column positions.
    pub indices: Seq<usize>,
    /// The names of the retained columns.
    pub filtered_headers: Seq<Seq<char>>,
    /// How many columns there were before filtering.
    pub num_original: nat,
    /// Whether the pattern matched no header, so that every column is kept.
    pub disabled_because_no_match: bool,
}

/// The filter that a pattern makes of a header list:
/// the matching columns in the order of the header list, or every column
/// where none matches.
pub open spec fn select_columns(pattern: PatternModel, headers: Seq<Seq<char>>) -> ColumnsModel {
    let hits = matching_columns(pattern.accepted, headers);
    let kept = if hits.len() == 0 {
        all_columns(headers)
    } else {
        hits
    };
    ColumnsModel {
        pattern,
        indices: kept,
        filtered_headers: headers_at(headers, kept),
        num_original: headers.len(),
        disabled_because_no_match: hits.len() == 0,
    }
}

/// The matching columns are exactly the positions of the matching headers,
/// each once and in ascending order.
pub proof fn lemma_matching_columns(lang: Set<Seq<char>>, headers: Seq<Seq<char>>)
    requires
        headers.len() <= usize::MAX,
    ensures
        matching_columns(lang, headers).len() <= headers.len(),
        forall|k: int|
            0 <= k < matching_columns(lang, headers).len() ==> {
                &&& (#[trigger] matching_columns(lang, headers)[k]) < headers.len()
                &&& lang.contains(headers[matching_columns(lang, headers)[k] as int])
            },
        forall|j: int, k: int|
            0 <= j < k < matching_columns(lang, headers).len() ==> matching_columns(
                lang,
                headers,
            )[j] < matching_columns(lang, headers)[k],
        forall|i: int|
            0 <= i < headers.len() && lang.contains(#[trigger] headers[i])
                ==> matching_columns(lang, headers).contains(i as usize),
    decreases headers.len(),
{
    if headers.len() > 0 {
        let shorter = headers.drop_last();
        let before = matching_columns(lang, shorter);
        let last = (headers.len() - 1) as usize;
        lemma_matching_columns(lang, shorter);
        let now = matching_columns(lang, headers);
        assert forall|i: int| 0 <= i < headers.len() && lang.contains(
            #[trigger] headers[i],
        ) implies now.contains(i as usize) by {
            if i < shorter.len() {
                assert(shorter[i] == headers[i]);
                let k = choose|k: int| 0 <= k < before.len() && before[k] == i as usize;
                assert(now[k] == i as usize);
            } else {
                assert(now[now.len() - 1] == last);
            }
        }
    }
}

/// What a filter retains of a header list: positions in ascending order, each
/// with its own header name, so that the retained columns stand in the order
/// in which the file has them. Where some header matches, the retained
/// columns are exactly the matching ones; where none does, all are retained.
pub proof fn lemma_select_columns(pattern: PatternModel, headers: Seq<Seq<char>>)
    requires
        headers.len() <= usize::MAX,
    ensures
        ({
            let lang = pattern.accepted;
            let filter = select_columns(pattern, headers);
            &&& filter.pattern == pattern
            &&& filter.indices.len() == filter.filtered_headers.len()
            &&& filter.indices.len() <= headers.len()
            &&& forall|j: int, k: int|
                0 <= j < k < filter.indices.len() ==> filter.indices[j] < filter.indices[k]
            &&& forall|k: int|
                0 <= k < filter.indices.len() ==> (#[trigger] filter.indices[k]) < headers.len()
                    && filter.filtered_headers[k] == headers[filter.indices[k] as int]
            &&& filter.disabled_because_no_match <==> forall|i: int|
                0 <= i < headers.len() ==> !lang.contains(#[trigger] headers[i])
            &&& filter.disabled_because_no_match ==> filter.filtered_headers == headers
            &&& !filter.disabled_because_no_match ==> forall|i: int|
                0 <= i < headers.len() ==> (lang.contains(#[trigger] headers[i])
                    <==> filter.indices.contains(i as usize))
        }),
{
    let lang = pattern.accepted;
    lemma_matching_columns(lang, headers);
    let hits = matching_columns(lang, headers);
    let filter = select_columns(pattern, headers);
    if hits.len() == 0 {
        assert forall|i: int| 0 <= i < headers.len() implies !lang.contains(
            #[trigger] headers[i],
        ) by {
            if lang.contains(headers[i]) {
                assert(hits.contains(i as usize));
            }
        }
        assert(filter.filtered_headers =~= headers);
    } else {
        assert(lang.contains(headers[hits[0] as int]));
        assert forall|i: int| 0 <= i < headers.len() && filter.indices.contains(
            i as usize,
        ) implies lang.contains(#[trigger] headers[i]) by {
            let k = choose|k: int| 0 <= k < hits.len() && hits[k] == i as usize;
            assert(lang.contains(headers[hits[k] as int]));
        }
    }
}

/// A column filter: which columns of the table are shown.
#[derive(Debug)]
pub struct ColumnsFilter {
    pattern: Regex,
    indices: Vec<usize>,
    filtered_headers: Vec<String>,
    num_columns_before_filter: usize,
    disabled_because_no_match: bool,
}

impl View for ColumnsFilter {
    type V = ColumnsModel;

    closed spec fn view(&self) -> ColumnsModel {
        ColumnsModel {
            pattern: meaning(self.pattern),
            indices: self.indices@,
            filtered_headers: self.filtered_headers.deep_view(),
            num_original: self.num_columns_before_filter as nat,
            disabled_because_no_match: self.disabled_because_no_match,
        }
    }
}

impl DeepView for ColumnsFilter {
    type V = ColumnsModel;

    open spec fn deep_view(&self) -> ColumnsModel {
        self@
    }
}

impl ColumnsFilter {
    /// Builds the filter for a header list. A header is retained exactly when
    /// the pattern matches it; where no header matches, all are retained and
    /// the filter reports itself as disabled.
    pub fn new(pattern: Regex, headers: &[String]) -> (filter: ColumnsFilter)
        ensures
            filter@ == select_columns(meaning(pattern), headers.deep_view()),
    {
        let ghost lang = accepted(pattern);
        let ghost names = headers.deep_view();
        let mut indices: Vec<usize> = Vec::new();
        let mut filtered_headers: Vec<String> = Vec::new();
        let mut i: usize = 0;
        while i < headers.len()
            invariant
                i <= headers.len(),
                names == headers.deep_view(),
                lang == accepted(pattern),
                indices@ == matching_columns(lang, names.take(i as int)),
                filtered_headers.len() == indices.len(),
                forall|k: int|
                    0 <= k < indices.len() ==> (#[trigger] filtered_headers[k])@
                        == names[indices[k] as int],
                forall|k: int| 0 <= k < indices.len() ==> (#[trigger] indices[k]) < i,
            decreases headers.len() - i,
        {
            assert(names.take(i + 1).drop_last() =~= names.take(i as int));
            assert(names.take(i + 1).last() == headers[i as int]@);
            if pattern.is_match(headers[i].as_str()) {
                indices.push(i);
                filtered_headers.push(headers[i].clone());
            }
            i += 1;
        }
        assert(names.take(i as int) =~= names);
        assert(filtered_headers.deep_view() =~= headers_at(names, indices@));
        let disabled_because_no_match = indices.len() == 0;
        if disabled_because_no_match {
            let mut j: usize = 0;
            while j < headers.len()
                invariant
                    j <= headers.len(),
                    names == headers.deep_view(),
                    indices@ == all_columns(names).take(j as int),
                    filtered_headers.len() == j,
                    forall|k: int| 0 <= k < j ==> (#[trigger] filtered_headers[k])@ == names[k],
                decreases headers.len() - j,
            {
                indices.push(j);
                filtered_headers.push(headers[j].clone());
                assert(indices@ =~= all_columns(names).take(j + 1));
                j += 1;
            }
            assert(indices@ =~= all_columns(names));
            assert(filtered_headers.deep_view() =~= headers_at(names, indices@));
        }
        ColumnsFilter {
            pattern,
            indices,
            filtered_headers,
            num_columns_before_filter: headers.len(),
            disabled_because_no_match,
        }
    }

    /// The names of the retained columns.
    pub fn filtered_headers(&self) -> (names: &Vec<String>)
        ensures
            names.deep_view() == self@.filtered_headers,
    {
        &self.filtered_headers
    }

    /// The positions of the retained columns.
    pub fn indices(&self) -> (indices: &Vec<usize>)
        ensures
            indices@ == self@.indices,
    {
        &self.indices
    }

    /// A copy of the pattern that the filter was built from: an expression
    /// with the same text that matches the same texts.
    pub fn pattern(&self) -> (pattern: Regex)
        ensures
            meaning(pattern) == self@.pattern,
    {
        self.pattern.clone()
    }

    /// The text of the pattern that the filter was built from.
    pub fn pattern_text(&self) -> (text: &str)
        ensures
            text@ == self@.pattern.text,
    {
        self.pattern.as_str()
    }

    /// How many columns are retained.
    pub fn num_filtered(&self) -> (n: usize)
        ensures
            n == self@.indices.len(),
    {
        self.indices.len()
    }

    /// How many columns the table has.
    pub fn num_original(&self) -> (n: usize)
        ensures
            n == self@.num_original,
    {
        self.num_columns_before_filter
    }

    /// Whether the pattern matched no header and the filter lets every column
    /// through.
    pub fn disabled_because_no_match(&self) -> (disabled: bool)
        ensures
            disabled == self@.disabled_because_no_match,
    {
        self.disabled_because_no_match
    }
}

} // verus!
