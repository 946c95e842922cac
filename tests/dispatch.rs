use eval_bot::args::Args;
use eval_bot::command::init_parser;
use eval_bot::dispatch::{help_text, plan_run, route, Route, RunPlan};
use eval_bot::language::LanguageRegistry;

#[test]
fn route_help() {
    let m = init_parser();
    assert!(matches!(route(&m, "/help", false), Route::Help));
    assert!(matches!(route(&m, "/help@SomeBot extra", false), Route::Help));
}

#[test]
fn route_help_from_reply_is_ignored() {
    let m = init_parser();
    assert!(matches!(route(&m, "/help", true), Route::Ignore));
}

#[test]
fn route_eval_keeps_arguments() {
    let m = init_parser();
    match route(&m, "/eval@Bot py print(1)", false) {
        Route::Run { args } => assert_eq!(args.as_str(), "py print(1)"),
        _ => panic!("expected a run"),
    }
    match route(&m, "/eval py x", true) {
        Route::Run { args } => assert_eq!(args.as_str(), "py x"),
        _ => panic!("expected a run"),
    }
}

#[test]
fn route_ignores_other_text() {
    let m = init_parser();
    assert!(matches!(route(&m, "eval py 1", false), Route::Ignore));
    assert!(matches!(route(&m, "", false), Route::Ignore));
    assert!(matches!(route(&m, "/", false), Route::Ignore));
    assert!(matches!(route(&m, "/ eval", false), Route::Run { .. }));
    assert!(matches!(route(&m, "/start", false), Route::Ignore));
}

#[test]
fn help_text_lists_commands() {
    assert_eq!(
        help_text(),
        "사용할 수 있는 명령어 목록입니다.\n/help - 도움말을 봅니다.\n/eval - 스크립트를 실행합니다."
    );
}

#[test]
fn plan_unknown_language_replies_with_listing() {
    let r = LanguageRegistry::standard();
    match plan_run(&r, Args::wrap(" cobol DISPLAY 1"), "", false) {
        RunPlan::Reply { text } => assert_eq!(
            text,
            "cobol은(는) 사용할 수 없는 언어입니다.\n사용 가능한 언어:\nrs, cpp, hs, c, py, js, sh, go, java"
        ),
        _ => panic!("expected a reply"),
    }
}

#[test]
fn plan_unknown_language_from_reply_is_silent() {
    let r = LanguageRegistry::standard();
    assert!(matches!(plan_run(&r, Args::wrap("cobol x"), "t", true), RunPlan::Silent));
}

#[test]
fn plan_missing_language_shows_usage() {
    let r = LanguageRegistry::standard();
    match plan_run(&r, Args::wrap("   "), "", false) {
        RunPlan::Reply { text } => assert_eq!(
            text,
            "사용법이 잘못되었습니다.\n/eval <언어> <코드>\n<언어>로 <코드>를 실행합니다.\n사용 가능한 언어:\nrs, cpp, hs, c, py, js, sh, go, java"
        ),
        _ => panic!("expected a reply"),
    }
    assert!(matches!(plan_run(&r, Args::wrap(""), "x", true), RunPlan::Silent));
}

#[test]
fn plan_direct_command_reads_nothing() {
    let r = LanguageRegistry::standard();
    match plan_run(&r, Args::wrap("py  import sys\nprint(sys.stdin.read())"), "/eval py", false) {
        RunPlan::Execute { request } => {
            assert_eq!(request.language.code, "py");
            assert_eq!(request.source, "import sys\nprint(sys.stdin.read())");
            assert_eq!(request.stdin, "");
        }
        _ => panic!("expected a run"),
    }
}

#[test]
fn plan_replied_command_reads_trigger_text() {
    let r = LanguageRegistry::standard();
    match plan_run(&r, Args::wrap("sh cat"), "hello from the reply", true) {
        RunPlan::Execute { request } => {
            assert_eq!(request.language.code, "sh");
            assert_eq!(request.source, "cat");
            assert_eq!(request.stdin, "hello from the reply");
        }
        _ => panic!("expected a run"),
    }
}
