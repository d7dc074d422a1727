//! The operator commands: starting a run by hand, and adding, listing and
//! removing the sources that validation reads.
//!
//! Looking a title up by short name belongs to the title registry; the
//! commands take what that lookup answered for their first argument.

use vstd::prelude::*;
use crate::decimal::{i32_text, int_text, is_i32_text, i32_value, parse_i32};
use crate::pipeline::{code_block, PipelineRun, RunContext};

verus! {

/// One source of a title: exactly one of `url` and `path` is non-empty.
#[derive(Debug, PartialEq, Eq)]
pub struct SourceRecord {
    pub appid: i32,
    pub url: String,
    pub path: String,
}

/// Why a command stopped before doing anything.
#[derive(Debug, PartialEq, Eq)]
pub enum CommandError {
    /// `gdc` was given no title.
    MissingGame,
    /// `gdc` was given a title that the registry does not know.
    UnsupportedTarget,
    /// The text is neither a title identifier nor a known short name.
    UnresolvedApp(String),
}

/// What a command asks of the source store and of the chat.
#[derive(Debug, PartialEq, Eq)]
pub enum CommandAction {
    /// Reply with this text; nothing else.
    Reply(String),
    /// Insert this record, then reply.
    Insert { record: SourceRecord, reply: String },
    /// Delete the records of `appid` whose url or path is `source`, then reply.
    Delete { appid: i32, source: String, reply: String },
    /// Reply with the listing of the records of `appid`.
    List { appid: i32 },
}

pub open spec fn error_message(e: &CommandError) -> Seq<char> {
    match e {
        CommandError::MissingGame => "Please supply a game to execute gamedata checker on.\n\nExample: -gdc csgo"@,
        CommandError::UnsupportedTarget => "Invalid or unsupported target."@,
        CommandError::UnresolvedApp(s) => "Unable to resolve application \""@ + s@ + "\""@,
    }
}

impl CommandError {
    /// The text shown to the operator.
    pub fn message(&self) -> (r: String)
        ensures
            r@ == error_message(self),
    {
        match self {
            CommandError::MissingGame => String::from_str(
                "Please supply a game to execute gamedata checker on.\n\nExample: -gdc csgo",
            ),
            CommandError::UnsupportedTarget => String::from_str("Invalid or unsupported target."),
            CommandError::UnresolvedApp(s) => {
                let mut r = String::from_str("Unable to resolve application \"");
                r.append(s.as_str());
                r.append("\"");
                r
            },
        }
    }
}

/// The title that a command argument names: its number where it is one,
/// else the identifier that the registry gave for it as a short name.
pub open spec fn resolves_to(s: Seq<char>, by_name: Option<i32>) -> Option<i32> {
    if is_i32_text(s) {
        Some(i32_value(s) as i32)
    } else {
        by_name
    }
}

/// The command's result for an argument that `resolves_to` nothing.
pub open spec fn is_unresolved(r: Result<i32, CommandError>, s: Seq<char>) -> bool {
    match r {
        Err(CommandError::UnresolvedApp(t)) => t@ == s,
        _ => false,
    }
}

/// Resolves a title argument: a number is taken as the identifier, anything
/// else as a short name, for which `by_name` is the registry's answer.
pub fn get_appid_from_str(appid_str: String, by_name: Option<i32>) -> (r: Result<i32, CommandError>)
    ensures
        match resolves_to(appid_str@, by_name) {
            Some(a) => r == Ok::<i32, CommandError>(a),
            None => is_unresolved(r, appid_str@),
        },
{
    match parse_i32(appid_str.as_str()) {
        Some(a) => Ok(a),
        None => match by_name {
            Some(a) => Ok(a),
            None => Err(CommandError::UnresolvedApp(appid_str)),
        },
    }
}

/// Starts a run by hand for the title named by the first argument; `by_name`
/// is the registry's answer for it, `requester` the operator's tag.
pub fn gdc(args: &Vec<String>, by_name: Option<i32>, requester: String) -> (r: Result<
    PipelineRun,
    CommandError,
>)
    ensures
        args@.len() == 0 ==> r is Err && r->Err_0 == CommandError::MissingGame,
        args@.len() > 0 && by_name is None ==> r is Err && r->Err_0
            == CommandError::UnsupportedTarget,
        args@.len() > 0 && by_name is Some ==> r is Ok && r->Ok_0.title_id() == by_name->Some_0
            && r->Ok_0.run_context() == (RunContext::Manual { requester })
            && r->Ok_0.lines() == seq![crate::pipeline::first_line()],
{
    if args.len() == 0 {
        return Err(CommandError::MissingGame);
    }
    match by_name {
        None => Err(CommandError::UnsupportedTarget),
        Some(appid) => Ok(PipelineRun::start(RunContext::Manual { requester }, appid)),
    }
}

/// Starts the run that an update of a title triggers; `title` is the name
/// that the update reports.
pub fn on_update(appid: i32, title: String) -> (r: PipelineRun)
    ensures
        r.title_id() == appid,
        r.run_context() == (RunContext::Automatic { title }),
        r.lines() == seq![crate::pipeline::first_line()],
{
    PipelineRun::start(RunContext::Automatic { title }, appid)
}

pub open spec fn add_usage() -> Seq<char> {
    "Invalid syntax: -gdc add <appid> <url OR path> <source>"@
}

pub open spec fn list_usage() -> Seq<char> {
    "Invalid syntax: -gdc list <appid>"@
}

pub open spec fn remove_usage() -> Seq<char> {
    "Invalid syntax: -gdc remove <appid> <src>"@
}

pub open spec fn removed_reply() -> Seq<char> {
    "I probably removed what you wanted"@
}

/// The action is a reply with exactly this text.
pub open spec fn replies(a: CommandAction, text: Seq<char>) -> bool {
    match a {
        CommandAction::Reply(t) => t@ == text,
        _ => false,
    }
}

/// The action inserts this source and confirms it.
pub open spec fn inserts(a: CommandAction, appid: i32, url: Seq<char>, path: Seq<char>, source: Seq<char>) -> bool {
    match a {
        CommandAction::Insert { record, reply } => record.appid == appid && record.url@ == url
            && record.path@ == path && reply@ == "Added "@ + source + " to sources list"@,
        _ => false,
    }
}

/// The result of a command whose title argument is `s`, when the title
/// resolved, or the resolution error.
pub open spec fn after_resolving(
    r: Result<CommandAction, CommandError>,
    s: Seq<char>,
    by_name: Option<i32>,
    then: spec_fn(i32, CommandAction) -> bool,
) -> bool {
    match resolves_to(s, by_name) {
        Some(a) => r is Ok && then(a, r->Ok_0),
        None => match r {
            Err(CommandError::UnresolvedApp(t)) => t@ == s,
            _ => false,
        },
    }
}

/// `gdc add <title> <url|path> <source>`: adds a source of the title.
pub fn add(args: &Vec<String>, by_name: Option<i32>) -> (r: Result<CommandAction, CommandError>)
    ensures
        args@.len() != 3 ==> r is Ok && replies(r->Ok_0, add_usage()),
        args@.len() == 3 ==> after_resolving(
            r,
            args@[0]@,
            by_name,
            |a: i32, act: CommandAction|
                if args@[1]@ == "url"@ {
                    inserts(act, a, args@[2]@, Seq::empty(), args@[2]@)
                } else if args@[1]@ == "path"@ {
                    inserts(act, a, Seq::empty(), args@[2]@, args@[2]@)
                } else {
                    replies(act, "Invalid source type: `"@ + args@[2]@ + "`"@)
                },
        ),
{
    if args.len() != 3 {
        return Ok(CommandAction::Reply(String::from_str(
            "Invalid syntax: -gdc add <appid> <url OR path> <source>",
        )));
    }
    let appid = match get_appid_from_str(args[0].clone(), by_name) {
        Ok(a) => a,
        Err(e) => return Err(e),
    };
    let src_type = &args[1];
    let src = &args[2];
    let mut reply = String::from_str("Added ");
    reply.append(src.as_str());
    reply.append(" to sources list");
    let url_kind = String::from_str("url");
    let path_kind = String::from_str("path");
    proof {
        reveal_strlit("url");
        reveal_strlit("path");
    }
    if *src_type == url_kind {
        let record = SourceRecord { appid, url: src.clone(), path: String::new() };
        Ok(CommandAction::Insert { record, reply })
    } else if *src_type == path_kind {
        let record = SourceRecord { appid, url: String::new(), path: src.clone() };
        Ok(CommandAction::Insert { record, reply })
    } else {
        let mut text = String::from_str("Invalid source type: `");
        text.append(src.as_str());
        text.append("`");
        Ok(CommandAction::Reply(text))
    }
}

/// `gdc list <title>`: lists the sources of the title.
pub fn list(args: &Vec<String>, by_name: Option<i32>) -> (r: Result<CommandAction, CommandError>)
    ensures
        args@.len() != 1 ==> r is Ok && replies(r->Ok_0, list_usage()),
        args@.len() == 1 ==> after_resolving(
            r,
            args@[0]@,
            by_name,
            |a: i32, act: CommandAction| act == (CommandAction::List { appid: a }),
        ),
{
    if args.len() != 1 {
        return Ok(CommandAction::Reply(String::from_str("Invalid syntax: -gdc list <appid>")));
    }
    match get_appid_from_str(args[0].clone(), by_name) {
        Ok(appid) => Ok(CommandAction::List { appid }),
        Err(e) => Err(e),
    }
}

/// `gdc remove <title> <source>`: removes the title's sources whose url or
/// path is the given one. The reply does not tell whether any was found.
pub fn remove(args: &Vec<String>, by_name: Option<i32>) -> (r: Result<CommandAction, CommandError>)
    ensures
        args@.len() != 2 ==> r is Ok && replies(r->Ok_0, remove_usage()),
        args@.len() == 2 ==> after_resolving(
            r,
            args@[0]@,
            by_name,
            |a: i32, act: CommandAction|
                match act {
                    CommandAction::Delete { appid, source, reply } => appid == a && source@
                        == args@[1]@ && reply@ == removed_reply(),
                    _ => false,
                },
        ),
{
    if args.len() != 2 {
        return Ok(CommandAction::Reply(String::from_str("Invalid syntax: -gdc remove <appid> <src>")));
    }
    match get_appid_from_str(args[0].clone(), by_name) {
        Ok(appid) => Ok(CommandAction::Delete {
            appid,
            source: args[1].clone(),
            reply: String::from_str("I probably removed what you wanted"),
        }),
        Err(e) => Err(e),
    }
}

/// What a record shows in a listing: its url and path, one of them empty.
pub open spec fn descriptor(r: SourceRecord) -> Seq<char> {
    r.url@ + r.path@
}

/// The listing's lines after its heading, one per record.
pub open spec fn listing_lines(rows: Seq<SourceRecord>) -> Seq<char>
    decreases rows.len(),
{
    if rows.len() == 0 {
        Seq::empty()
    } else {
        listing_lines(rows.drop_last()) + " - "@ + descriptor(rows.last()) + "\n"@
    }
}

/// The reply to `gdc list`: a heading, then one line per record.
pub open spec fn listing(appid: i32, rows: Seq<SourceRecord>) -> Seq<char> {
    code_block("Sources for "@ + int_text(appid as int) + "\n"@ + listing_lines(rows))
}

/// Renders the records of a title as the reply to `gdc list`.
pub fn render_listing(appid: i32, rows: &Vec<SourceRecord>) -> (r: String)
    ensures
        r@ == listing(appid, rows@),
{
    let mut body = String::from_str("Sources for ");
    body.append(i32_text(appid).as_str());
    body.append("\n");
    let ghost head = body@;
    let mut i: usize = 0;
    while i < rows.len()
        invariant
            i <= rows@.len(),
            body@ == head + listing_lines(rows@.take(i as int)),
        decreases rows@.len() - i,
    {
        assert(rows@.take(i + 1).drop_last() =~= rows@.take(i as int));
        body.append(" - ");
        body.append(rows[i].url.as_str());
        body.append(rows[i].path.as_str());
        body.append("\n");
        i = i + 1;
        assert(body@ =~= head + listing_lines(rows@.take(i as int)));
    }
    assert(rows@.take(rows@.len() as int) =~= rows@);
    let mut r = String::from_str("```\n");
    r.append(body.as_str());
    r.append("\n```");
    r
}

/// The record is one that `gdc remove` of `source` for `appid` deletes.
pub open spec fn removes(r: SourceRecord, appid: i32, source: Seq<char>) -> bool {
    r.appid == appid && (r.url@ == source || r.path@ == source)
}

/// Whether `gdc remove` of `source` for `appid` deletes the record.
pub fn is_removed_by(record: &SourceRecord, appid: i32, source: &String) -> (r: bool)
    ensures
        r == removes(*record, appid, source@),
{
    record.appid == appid && (record.url == *source || record.path == *source)
}

/// The records of a title in a table, in table order.
pub open spec fn rows_of(table: Seq<SourceRecord>, appid: i32) -> Seq<SourceRecord> {
    table.filter(|r: SourceRecord| r.appid == appid)
}

/// A table once `gdc remove` of `source` for `appid` has run on it.
pub open spec fn after_delete(table: Seq<SourceRecord>, appid: i32, source: Seq<char>) -> Seq<
    SourceRecord,
> {
    table.filter(|r: SourceRecord| !removes(r, appid, source))
}

proof fn lemma_delete_leaves_none(table: Seq<SourceRecord>, appid: i32, source: Seq<char>)
    requires
        forall|i: int|
            0 <= i < table.len() && (#[trigger] table[i]).appid == appid ==> removes(
                table[i],
                appid,
                source,
            ),
    ensures
        rows_of(after_delete(table, appid, source), appid).len() == 0,
    decreases table.len(),
{
    reveal_with_fuel(Seq::filter, 2);
    if table.len() > 0 {
        let init = table.drop_last();
        assert forall|i: int|
            0 <= i < init.len() && (#[trigger] init[i]).appid == appid implies removes(
            init[i],
            appid,
            source,
        ) by {
            assert(init[i] == table[i]);
        }
        lemma_delete_leaves_none(init, appid, source);
        let d0 = after_delete(init, appid, source);
        let x = table.last();
        if !removes(x, appid, source) {
            assert(x.appid != appid);
            assert(after_delete(table, appid, source) == d0.push(x));
            assert(d0.push(x).drop_last() =~= d0);
            assert(rows_of(d0.push(x), appid) == rows_of(d0, appid));
        } else {
            assert(after_delete(table, appid, source) == d0);
        }
    }
}

/// Adding a source by url makes it show, by its url, in the title's
/// listing; removing that url then leaves the listing empty where the title
/// had no other source.
pub proof fn lemma_add_then_remove(table: Seq<SourceRecord>, record: SourceRecord, source: Seq<char>)
    requires
        record.url@ == source,
        record.path@ == Seq::<char>::empty(),
    ensures
        rows_of(table.push(record), record.appid).contains(record),
        descriptor(record) == source,
        (forall|i: int| 0 <= i < table.len() ==> (#[trigger] table[i]).appid != record.appid) ==> 
            listing(record.appid, rows_of(after_delete(table.push(record), record.appid, source), record.appid))
                == listing(record.appid, Seq::empty()),
{
    reveal_with_fuel(Seq::filter, 1);
    let t = table.push(record);
    assert(t.drop_last() =~= table);
    let rows = rows_of(t, record.appid);
    assert(rows == rows_of(table, record.appid).push(record));
    assert(rows[rows.len() - 1] == record);
    assert(descriptor(record) =~= source);
    if forall|i: int| 0 <= i < table.len() ==> (#[trigger] table[i]).appid != record.appid {
        assert forall|i: int|
            0 <= i < t.len() && (#[trigger] t[i]).appid == record.appid implies removes(
            t[i],
            record.appid,
            source,
        ) by {
            if i < table.len() {
                assert(t[i] == table[i]);
            }
        }
        lemma_delete_leaves_none(t, record.appid, source);
        let left = rows_of(after_delete(t, record.appid, source), record.appid);
        assert(left =~= Seq::<SourceRecord>::empty());
    }
}

} // verus!
