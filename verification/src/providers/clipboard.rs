//! Clipboard history provider backed by entries the daemon state holds.

use vstd::prelude::*;

use crate::plugin_api::{
    EffectView, PluginErrorView, StepView,
    new_result_view, results_view, Action, ActionEffect, ActionOutcome, ActionView, ExecutionStep,
    PluginError, Provider, ProviderId, ResultKind, SearchContext, SearchResult, SearchResultView,
};
use crate::text::{byte_len, utf8_len, append_str, chars_of, concat2, first_line_trimmed, first_line_trimmed_chars, lit, nat_digits, string_from_chars, sub_chars, usize_to_decimal};
use crate::providers::shell::strings2;

verus! {

pub struct ClipboardHistoryProvider {
    pub items: Vec<String>,
}

/// The title shown for a clipboard entry: its first line, trimmed, cut to 77
/// characters plus `...` when longer than 80, or a placeholder when empty.
pub open spec fn preview_spec(value: Seq<char>) -> Seq<char> {
    let first = first_line_trimmed(value);
    let cut = if first.len() > 80 {
        first.take(77) + "..."@
    } else {
        first
    };
    if cut.len() == 0 {
        "<empty clipboard item>"@
    } else {
        cut
    }
}

pub fn preview(value: &str) -> (r: String)
    ensures
        r@ == preview_spec(value@),
{
    let v = chars_of(value);
    let first = first_line_trimmed_chars(&v);
    let cut = if first.len() > 80 {
        let head = sub_chars(&first, 0, 77);
        let mut s = string_from_chars(&head);
        append_str(&mut s, "...");
        proof {
            assert(head@ == first@.take(77));
        }
        s
    } else {
        string_from_chars(&first)
    };
    if cut.as_str().is_empty() {
        lit("<empty clipboard item>")
    } else {
        cut
    }
}

pub open spec fn clipboard_result_view(index: nat, item: Seq<char>) -> SearchResultView {
    SearchResultView {
        subtitle: Some("Clipboard history"@),
        keywords: seq!["clipboard"@, "history"@],
        ..new_result_view(
            "clipboard"@,
            "clipboard:"@ + nat_digits(index),
            preview_spec(item),
            ResultKind::Clipboard,
            ActionView::CopyText { text: item },
        )
    }
}

pub open spec fn clipboard_search_spec(items: Seq<Seq<char>>) -> Seq<SearchResultView> {
    Seq::new(items.len(), |i: int| clipboard_result_view(i as nat, items[i]))
}

impl ClipboardHistoryProvider {
    pub fn empty() -> (r: Self)
        ensures
            r.items@.len() == 0,
    {
        ClipboardHistoryProvider { items: Vec::new() }
    }

    pub fn with_items(items: Vec<String>) -> (r: Self)
        ensures
            r.items == items,
    {
        ClipboardHistoryProvider { items }
    }
}

/// The outcome message of a clipboard copy: the byte count, never the text.
pub open spec fn clipboard_copy_message(byte_len: nat) -> Seq<char> {
    "clipboard write is stubbed; selected "@ + nat_digits(byte_len) + " bytes"@
}

impl Provider for ClipboardHistoryProvider {
    open spec fn id_spec(&self) -> Seq<char> {
        "clipboard"@
    }

    open spec fn search_spec(&self, query: Seq<char>, limit: usize) -> Result<Seq<SearchResultView>, PluginErrorView> {
        Ok(clipboard_search_spec(self.items.deep_view()))
    }

    open spec fn execute_spec(&self, action: ActionView) -> Result<StepView, PluginErrorView> {
        match action {
            ActionView::CopyText { text } => Ok(StepView::Done(clipboard_copy_message((utf8_len(text) as usize) as nat))),
            _ => Err(PluginErrorView::UnsupportedAction),
        }
    }

    fn id(&self) -> (r: ProviderId)
        ensures
            r@ == "clipboard"@,
    {
        ProviderId::new("clipboard")
    }

    fn search(&self, context: &SearchContext) -> (r: Result<Vec<SearchResult>, PluginError>)
        ensures
            r matches Ok(v) && results_view(v@) == clipboard_search_spec(self.items.deep_view()),
    {
        let mut out: Vec<SearchResult> = Vec::new();
        let mut i: usize = 0;
        while i < self.items.len()
            invariant
                i <= self.items@.len(),
                results_view(out@) == clipboard_search_spec(self.items.deep_view()).take(i as int),
            decreases self.items@.len() - i,
        {
            let item = &self.items[i];
            let id = concat2("clipboard:", usize_to_decimal(i).as_str());
            let result = SearchResult::from_parts(
                self.id(),
                id,
                preview(item.as_str()),
                ResultKind::Clipboard,
                Action::CopyText { text: item.clone() },
            ).with_subtitle("Clipboard history").with_keywords(strings2("clipboard", "history"));
            let ghost old_out = out@;
            out.push(result);
            proof {
                assert(results_view(out@) =~= results_view(old_out).push(out@[i as int]@));
                assert(clipboard_search_spec(self.items.deep_view()).take(i + 1) =~= clipboard_search_spec(self.items.deep_view()).take(i as int).push(clipboard_result_view(i as nat, self.items@[i as int]@)));
            }
            i += 1;
        }
        proof {
            assert(clipboard_search_spec(self.items.deep_view()).take(i as int) =~= clipboard_search_spec(self.items.deep_view()));
        }
        Ok(out)
    }

    fn execute(&self, action: &Action) -> (r: Result<ExecutionStep, PluginError>)
        ensures
            match action {
                Action::CopyText { text } => r matches Ok(ExecutionStep::Done(o)) && o.message@ == clipboard_copy_message((utf8_len(text@) as usize) as nat),
                _ => r == Err::<ExecutionStep, PluginError>(PluginError::UnsupportedAction),
            },
    {
        match action {
            Action::CopyText { text } => {
                let n = byte_len(text.as_str());
                let mut m = concat2("clipboard write is stubbed; selected ", usize_to_decimal(n).as_str());
                append_str(&mut m, " bytes");
                Ok(ExecutionStep::Done(ActionOutcome::new(m)))
            },
            _ => Err(PluginError::UnsupportedAction),
        }
    }
}


/// A clipboard title never runs past 80 characters and is never empty.
pub proof fn law_preview_is_short(value: Seq<char>)
    ensures
        preview_spec(value).len() <= 80,
        preview_spec(value).len() > 0,
{
    reveal_strlit("...");
    reveal_strlit("<empty clipboard item>");
}

/// Choosing a clipboard result copies the whole stored item, whatever its
/// preview shows: the i-th result of a clipboard search copies the i-th
/// history item exactly, and the results follow the history, one each.
pub proof fn law_clipboard_copies_whole_item(p: ClipboardHistoryProvider, query: Seq<char>, limit: usize)
    ensures
        p.search_spec(query, limit) matches Ok(v) && v.len() == p.items@.len() && forall|i: int| 0 <= i < v.len() ==> {
            &&& (#[trigger] v[i]).action == ActionView::CopyText { text: p.items@[i]@ }
            &&& crate::plugin_api::primary_action_spec(v[i]) == ActionView::CopyText { text: p.items@[i]@ }
            &&& v[i].kind == ResultKind::Clipboard
        },
{
}
} // verus!
