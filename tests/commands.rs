use gdcbot::commands::{
    add, gdc, get_appid_from_str, is_removed_by, list, on_update, remove, render_listing,
    CommandAction, CommandError, SourceRecord,
};
use gdcbot::pipeline::RunContext;

fn args(a: &[&str]) -> Vec<String> {
    a.iter().map(|s| s.to_string()).collect()
}

fn run_on(table: &mut Vec<SourceRecord>, action: CommandAction) -> String {
    match action {
        CommandAction::Reply(t) => t,
        CommandAction::Insert { record, reply } => {
            table.push(record);
            reply
        }
        CommandAction::Delete { appid, source, reply } => {
            table.retain(|r| !is_removed_by(r, appid, &source));
            reply
        }
        CommandAction::List { appid } => {
            let rows: Vec<SourceRecord> = table
                .iter()
                .filter(|r| r.appid == appid)
                .map(|r| SourceRecord { appid: r.appid, url: r.url.clone(), path: r.path.clone() })
                .collect();
            render_listing(appid, &rows)
        }
    }
}

#[test]
fn add_list_remove_round_trip() {
    let mut table = Vec::new();
    let reply = run_on(&mut table, add(&args(&["730", "url", "http://example.test/x"]), None).unwrap());
    assert_eq!(reply, "Added http://example.test/x to sources list");
    let listing = run_on(&mut table, list(&args(&["730"]), None).unwrap());
    assert!(listing.contains("http://example.test/x"));
    assert_eq!(listing, "```\nSources for 730\n - http://example.test/x\n\n```");
    let reply = run_on(&mut table, remove(&args(&["730", "http://example.test/x"]), None).unwrap());
    assert_eq!(reply, "I probably removed what you wanted");
    let listing = run_on(&mut table, list(&args(&["730"]), None).unwrap());
    assert_eq!(listing, "```\nSources for 730\n\n```");
}

#[test]
fn add_by_path_and_short_name() {
    match add(&args(&["csgo", "path", "/srv/gamedata"]), Some(730)).unwrap() {
        CommandAction::Insert { record, .. } => {
            assert_eq!(record, SourceRecord { appid: 730, url: String::new(), path: "/srv/gamedata".to_string() });
        }
        other => panic!("{:?}", other),
    }
}

#[test]
fn add_rejects_bad_kind_and_arity() {
    assert_eq!(
        add(&args(&["730", "ftp", "x"]), None).unwrap(),
        CommandAction::Reply("Invalid source type: `x`".to_string())
    );
    assert_eq!(
        add(&args(&["730", "url"]), None).unwrap(),
        CommandAction::Reply("Invalid syntax: -gdc add <appid> <url OR path> <source>".to_string())
    );
    assert_eq!(
        list(&args(&[]), None).unwrap(),
        CommandAction::Reply("Invalid syntax: -gdc list <appid>".to_string())
    );
    assert_eq!(
        remove(&args(&["730"]), None).unwrap(),
        CommandAction::Reply("Invalid syntax: -gdc remove <appid> <src>".to_string())
    );
}

#[test]
fn unresolved_title_is_an_error() {
    let e = get_appid_from_str("nope".to_string(), None).unwrap_err();
    assert_eq!(e, CommandError::UnresolvedApp("nope".to_string()));
    assert_eq!(e.message(), "Unable to resolve application \"nope\"");
    assert_eq!(get_appid_from_str("440".to_string(), Some(1)).unwrap(), 440);
    assert_eq!(get_appid_from_str("tf2".to_string(), Some(440)).unwrap(), 440);
    assert!(matches!(list(&args(&["nope"]), None), Err(CommandError::UnresolvedApp(_))));
}

#[test]
fn gdc_needs_a_known_title() {
    let e = gdc(&args(&[]), None, "op".to_string()).unwrap_err();
    assert_eq!(e, CommandError::MissingGame);
    assert_eq!(e.message(), "Please supply a game to execute gamedata checker on.\n\nExample: -gdc csgo");
    let e = gdc(&args(&["xyz"]), None, "op".to_string()).unwrap_err();
    assert_eq!(e.message(), "Invalid or unsupported target.");
    let run = gdc(&args(&["csgo"]), Some(730), "op".to_string()).unwrap();
    assert_eq!(run.appid(), 730);
    assert_eq!(run.context(), &RunContext::Manual { requester: "op".to_string() });
}

#[test]
fn update_starts_automatic_run() {
    let run = on_update(440, "Team Fortress 2".to_string());
    assert_eq!(run.status().title, "Team Fortress 2 update detected");
    assert_eq!(run.log(), vec!["Pulling latest sourcemod..."]);
}
