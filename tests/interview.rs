use roles_for_reactions::interview::{assignable_roles, holds_name, PairOutcome, StateManager, Step};
use roles_for_reactions::store::MonitorManager;

fn roster(names: &[&str]) -> Vec<String> {
    names.iter().map(|n| n.to_string()).collect()
}

fn started_with_content(user: u64, content: &str) -> StateManager {
    let mut reg = StateManager::new();
    assert!(reg.start(user, Some(7), 11));
    assert!(matches!(reg.on_message(user, false, false, content), Step::ContentRecorded));
    reg
}

#[test]
fn private_message_without_interview_is_ignored() {
    let mut reg = StateManager::new();
    for content in ["hello", "quit", "done", "👍 Helper", ""] {
        assert!(matches!(reg.on_message(5, false, false, content), Step::Ignored));
        assert!(!reg.contains(5));
    }
}

#[test]
fn other_users_interview_does_not_route_messages() {
    let mut reg = StateManager::new();
    assert!(reg.start(1, Some(7), 11));
    assert!(matches!(reg.on_message(2, false, false, "quit"), Step::Ignored));
    assert!(reg.contains(1));
    assert!(!reg.contains(2));
}

#[test]
fn guild_and_bot_messages_are_ignored() {
    let mut reg = StateManager::new();
    assert!(reg.start(1, Some(7), 11));
    assert!(matches!(reg.on_message(1, true, false, "quit"), Step::Ignored));
    assert!(matches!(reg.on_message(1, false, true, "quit"), Step::Ignored));
    assert!(reg.contains(1));
}

#[test]
fn setup_outside_guild_starts_nothing() {
    let mut reg = StateManager::new();
    assert!(!reg.start(1, None, 11));
    assert!(!reg.contains(1));
}

#[test]
fn quit_right_after_start_clears_interview() {
    let mut reg = StateManager::new();
    let store = MonitorManager::from_monitors(Vec::new());
    assert!(reg.start(3, Some(7), 11));
    assert!(reg.contains(3));
    assert!(matches!(reg.on_message(3, false, false, "QuIt"), Step::Aborted));
    assert!(!reg.contains(3));
    assert_eq!(store.len(), 0);
    assert!(matches!(reg.on_message(3, false, false, "anything"), Step::Ignored));
}

#[test]
fn quit_is_heard_while_awaiting_pairs() {
    let mut reg = started_with_content(3, "Pick your role!");
    assert!(matches!(reg.on_message(3, false, false, "quit"), Step::Aborted));
    assert!(!reg.contains(3));
}

#[test]
fn full_setup_yields_one_monitor() {
    let mut reg = started_with_content(9, "Pick your role!");
    let mut store = MonitorManager::from_monitors(Vec::new());
    let before = store.len();
    let pair = match reg.on_message(9, false, false, "👍 Helper") {
        Step::CheckRole { guild_id, pair } => {
            assert_eq!(guild_id, 7);
            pair
        }
        other => panic!("unexpected step {:?}", other),
    };
    assert_eq!(pair.emoji, '👍');
    assert_eq!(pair.role_name, "Helper");
    let outcome = reg.add_pair(9, pair, &roster(&["@everyone", "Helper", "Mod"]));
    assert!(matches!(outcome, PairOutcome::Added));
    let completion = match reg.on_message(9, false, false, "done") {
        Step::Complete(c) => c,
        other => panic!("unexpected step {:?}", other),
    };
    assert!(!reg.contains(9));
    assert_eq!(completion.channel_id, 11);
    assert_eq!(completion.guild_id, 7);
    assert_eq!(completion.body, "Pick your role!");
    store.record(&completion, 1234);
    assert_eq!(store.len(), before + 1);
    let m = &store.monitors()[0];
    assert_eq!(m.channel_id, 11);
    assert_eq!(m.guild_id, 7);
    assert_eq!(m.message_id, 1234);
    assert_eq!(m.reactions.len(), 1);
    assert_eq!(m.reactions[0].emoji, '👍');
    assert_eq!(m.reactions[0].role_name, "Helper");
}

#[test]
fn done_in_upper_case_completes() {
    let mut reg = started_with_content(9, "Body");
    assert!(matches!(reg.on_message(9, false, false, "DONE"), Step::Complete(_)));
    assert!(!reg.contains(9));
}

#[test]
fn unknown_role_keeps_interview_and_lists_roles() {
    let mut reg = started_with_content(4, "Pick your role!");
    let pair = match reg.on_message(4, false, false, "👍 Nope") {
        Step::CheckRole { pair, .. } => pair,
        other => panic!("unexpected step {:?}", other),
    };
    assert_eq!(pair.role_name, "Nope");
    let outcome = reg.add_pair(4, pair, &roster(&["@everyone", "Helper", "Mod"]));
    match outcome {
        PairOutcome::UnknownRole(valid) => assert_eq!(valid, vec!["Helper".to_string(), "Mod".to_string()]),
        other => panic!("unexpected outcome {:?}", other),
    }
    assert!(reg.contains(4));
    // still awaiting pairs, with none collected
    match reg.on_message(4, false, false, "done") {
        Step::Complete(c) => assert!(c.reactions.is_empty()),
        other => panic!("unexpected step {:?}", other),
    }
}

#[test]
fn everyone_role_cannot_be_paired() {
    let mut reg = started_with_content(4, "x");
    let pair = match reg.on_message(4, false, false, "👍 @everyone") {
        Step::CheckRole { pair, .. } => pair,
        other => panic!("unexpected step {:?}", other),
    };
    assert!(matches!(
        reg.add_pair(4, pair, &roster(&["@everyone"])),
        PairOutcome::UnknownRole(v) if v.is_empty()
    ));
}

#[test]
fn add_pair_without_interview() {
    let mut reg = StateManager::new();
    let pair = roles_for_reactions::model::ReactionRole::new('👍', "Helper");
    assert!(matches!(reg.add_pair(1, pair, &roster(&["Helper"])), PairOutcome::NoInterview));
    assert!(!reg.contains(1));
}

#[test]
fn pairs_keep_their_order() {
    let mut reg = started_with_content(2, "Roles");
    let names = roster(&["A", "B"]);
    for msg in ["1 A", "2 B"] {
        let pair = match reg.on_message(2, false, false, msg) {
            Step::CheckRole { pair, .. } => pair,
            other => panic!("unexpected step {:?}", other),
        };
        assert!(matches!(reg.add_pair(2, pair, &names), PairOutcome::Added));
    }
    match reg.on_message(2, false, false, "done") {
        Step::Complete(c) => {
            assert_eq!(c.reactions.len(), 2);
            assert_eq!(c.reactions[0].emoji, '1');
            assert_eq!(c.reactions[0].role_name, "A");
            assert_eq!(c.reactions[1].emoji, '2');
            assert_eq!(c.reactions[1].role_name, "B");
        }
        other => panic!("unexpected step {:?}", other),
    }
}

#[test]
fn empty_pair_message_is_format_error() {
    let mut reg = started_with_content(2, "Roles");
    assert!(matches!(reg.on_message(2, false, false, ""), Step::FormatError));
    assert!(reg.contains(2));
}

#[test]
fn done_before_content_asks_for_content() {
    let mut reg = StateManager::new();
    assert!(reg.start(2, Some(7), 11));
    assert!(matches!(reg.on_message(2, false, false, "done"), Step::ContentMissing));
    assert!(reg.contains(2));
    assert!(matches!(reg.on_message(2, false, false, "Body"), Step::ContentRecorded));
}

#[test]
fn second_setup_replaces_first() {
    let mut reg = started_with_content(2, "Old");
    assert!(reg.start(2, Some(8), 12));
    assert!(matches!(reg.on_message(2, false, false, "New"), Step::ContentRecorded));
    match reg.on_message(2, false, false, "done") {
        Step::Complete(c) => {
            assert_eq!(c.guild_id, 8);
            assert_eq!(c.channel_id, 12);
            assert_eq!(c.body, "New");
        }
        other => panic!("unexpected step {:?}", other),
    }
}

#[test]
fn two_users_complete_interleaved() {
    let mut reg = StateManager::new();
    let mut store = MonitorManager::from_monitors(Vec::new());
    assert!(reg.start(1, Some(7), 11));
    assert!(reg.start(2, Some(7), 12));
    assert!(matches!(reg.on_message(2, false, false, "Second"), Step::ContentRecorded));
    assert!(matches!(reg.on_message(1, false, false, "First"), Step::ContentRecorded));
    let c2 = match reg.on_message(2, false, false, "done") {
        Step::Complete(c) => c,
        other => panic!("unexpected step {:?}", other),
    };
    assert!(reg.contains(1));
    let c1 = match reg.on_message(1, false, false, "done") {
        Step::Complete(c) => c,
        other => panic!("unexpected step {:?}", other),
    };
    store.record(&c2, 200);
    store.record(&c1, 100);
    assert_eq!(store.len(), 2);
    assert_eq!(store.monitors()[0].channel_id, 12);
    assert_eq!(store.monitors()[0].message_id, 200);
    assert_eq!(store.monitors()[1].channel_id, 11);
    assert_eq!(store.monitors()[1].message_id, 100);
    assert!(!reg.contains(1) && !reg.contains(2));
}

#[test]
fn assignable_roles_drop_everyone() {
    assert_eq!(
        assignable_roles(&roster(&["Mod", "@everyone", "Helper"])),
        roster(&["Mod", "Helper"])
    );
    assert!(assignable_roles(&roster(&[])).is_empty());
}

#[test]
fn holds_name_is_exact() {
    let names = roster(&["Helper", "Mod"]);
    assert!(holds_name(&names, "Mod"));
    assert!(!holds_name(&names, "mod"));
    assert!(!holds_name(&names, "Help"));
    assert!(!holds_name(&roster(&[]), ""));
}
