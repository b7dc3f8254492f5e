use vstd::prelude::*;

use crate::cmd::{cmd_has_alias, spec_unknown_reply, unknown_command_reply, Commands, Sender};
use crate::invoke::{split_args, splits_of};

verus! {

/// What one console line leads to.
#[derive(Debug)]
pub enum LineAction {
    /// End the console session: the line could not be tokenized.
    End,
    /// Ignore the line: it holds no token.
    Skip,
    /// Run the command at `index` in the registry on the local sender.
    Run { index: usize, args: Vec<String>, sender: Sender },
    /// No command resolves: report the unknown-command message locally.
    Unknown { text: String },
}

/// `r` runs the command at a registry position that resolves `toks[0]` — by
/// primary name when `by_name`, else by alias — on the console sender.
pub open spec fn line_runs(
    r: LineAction,
    cmds: Commands,
    toks: Seq<Seq<char>>,
    by_name: bool,
) -> bool {
    match r {
        LineAction::Run { index, args, sender } => index < cmds.list@.len() && (if by_name {
            cmds.list@[index as int].name@ == toks[0]
        } else {
            cmd_has_alias(cmds.list@[index as int], toks[0])
        }) && args.deep_view() == toks && sender == Sender::Console,
        _ => false,
    }
}

/// `r` reports the unknown-command message for `key`.
pub open spec fn line_unknown(r: LineAction, key: Seq<char>) -> bool {
    match r {
        LineAction::Unknown { text } => text@ == spec_unknown_reply(key),
        _ => false,
    }
}

/// Decides what one console line leads to: tokenize it, then resolve the
/// first token against the registry. Console lines carry no command prefix
/// and no mention, and are never filtered by chat or time.
pub fn plan_line(line: &str, cmds: &Commands) -> (r: LineAction)
    requires
        cmds.wf(),
    ensures
        splits_of(line@) is None ==> r is End,
        splits_of(line@) matches Some(toks) ==> (toks.len() == 0 ==> r is Skip),
        splits_of(line@) matches Some(toks) ==> (toks.len() > 0 && cmds.has_name(toks[0])
            ==> line_runs(r, *cmds, toks, true)),
        splits_of(line@) matches Some(toks) ==> (toks.len() > 0 && !cmds.has_name(toks[0])
            && cmds.has_alias(toks[0]) ==> line_runs(r, *cmds, toks, false)),
        splits_of(line@) matches Some(toks) ==> (toks.len() > 0 && !cmds.has_name(toks[0])
            && !cmds.has_alias(toks[0]) ==> line_unknown(r, toks[0])),
{
    match split_args(line) {
        None => LineAction::End,
        Some(args) => {
            if args.len() == 0 {
                return LineAction::Skip;
            }
            let key = args[0].as_str();
            match cmds.lookup(key) {
                Some(index) => LineAction::Run { index, args, sender: Sender::Console },
                None => LineAction::Unknown { text: unknown_command_reply(key) },
            }
        },
    }
}

/// Whether an interactive history search is currently matching.
#[derive(Clone, Copy, Debug, PartialEq, Eq, Structural)]
pub enum SearchStatus {
    Passing,
    Failing,
}

/// A snapshot of an interactive history search: its status and its term.
#[derive(Clone, Debug)]
pub struct HistorySearch {
    pub status: SearchStatus,
    pub term: String,
}

/// The history-search indicator: the search term framed by a fixed banner,
/// with a marker when the search is failing.
pub open spec fn spec_search_indicator(status: SearchStatus, term: Seq<char>) -> Seq<char> {
    "("@ + (if status is Failing {
        "failing "@
    } else {
        Seq::<char>::empty()
    }) + "reverse-search: "@ + term + ") "@
}

/// The console prompt: a bare indicator and an indicator for history
/// searches.
#[derive(Clone)]
pub struct CustomPrompt;

impl CustomPrompt {
    /// Nothing is shown left of the input.
    pub fn render_prompt_left(&self) -> (r: &'static str)
        ensures
            r@ == ""@,
    {
        ""
    }

    /// Nothing is shown right of the input.
    pub fn render_prompt_right(&self) -> (r: &'static str)
        ensures
            r@ == ""@,
    {
        ""
    }

    /// The input indicator.
    pub fn render_prompt_indicator(&self) -> (r: &'static str)
        ensures
            r@ == "> "@,
    {
        "> "
    }

    /// The continuation indicator for multi-line input.
    pub fn render_prompt_multiline_indicator(&self) -> (r: &'static str)
        ensures
            r@ == "::: "@,
    {
        "::: "
    }

    /// The indicator shown during a history search.
    pub fn render_prompt_history_search_indicator(&self, history_search: &HistorySearch) -> (r:
        String)
        ensures
            r@ == spec_search_indicator(history_search.status, history_search.term@),
    {
        let mut s = String::from_str("(");
        if matches!(history_search.status, SearchStatus::Failing) {
            s.append("failing ");
        }
        s.append("reverse-search: ");
        s.append(history_search.term.as_str());
        s.append(") ");
        proof {
            assert(s@ =~= spec_search_indicator(history_search.status, history_search.term@));
        }
        s
    }
}

} // verus!
