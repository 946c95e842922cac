use vstd::prelude::*;
use crate::args::{lemma_token_bounds, token_end, token_start, Args};
use crate::command::{CommandMatcher, ExecutorCommand};
use crate::language::{codes_of, join_comma, listing_header, Language, LanguageRegistry};
use crate::text::trim_start_of;

verus! {

/// A program to run: its language, its source and what it reads on standard
/// input.
pub struct ExecutionRequest<'a> {
    pub language: &'a Language,
    pub source: &'a str,
    pub stdin: &'a str,
}

/// What to do with a run command.
pub enum RunPlan<'a> {
    /// Say nothing.
    Silent,
    /// Answer with `text` and run nothing.
    Reply { text: String },
    /// Run the request.
    Execute { request: ExecutionRequest<'a> },
}

/// What to do with an incoming message.
pub enum Route<'a> {
    /// Not a command for this bot.
    Ignore,
    /// Answer with the help text.
    Help,
    /// A run command; `args` holds what follows its label.
    Run { args: Args<'a> },
}

/// The listing of the languages of `r`.
pub open spec fn listing(r: &LanguageRegistry) -> Seq<char> {
    listing_header() + join_comma(codes_of(r@))
}

/// The reply to a run command without a language.
pub open spec fn usage_text(r: &LanguageRegistry) -> Seq<char> {
    "사용법이 잘못되었습니다.\n/eval <언어> <코드>\n<언어>로 <코드>를 실행합니다.\n"@ + listing(r)
}

/// The reply to a run command naming the unknown language `code`.
pub open spec fn unknown_language_text(r: &LanguageRegistry, code: Seq<char>) -> Seq<char> {
    code + "은(는) 사용할 수 없는 언어입니다.\n"@ + listing(r)
}

/// The reply to the help command.
pub open spec fn help_spec() -> Seq<char> {
    "사용할 수 있는 명령어 목록입니다.\n/help - 도움말을 봅니다.\n/eval - 스크립트를 실행합니다."@
}

/// The index of the last `'@'` in `s` before index `i`, or -1.
pub open spec fn last_at(s: Seq<char>, i: int) -> int
    decreases i,
{
    if i <= 0 {
        -1
    } else if s[i - 1] == '@' {
        i - 1
    } else {
        last_at(s, i - 1)
    }
}

/// A command label without the bot name after its last `'@'`.
pub open spec fn strip_mention(label: Seq<char>) -> Seq<char> {
    let k = last_at(label, label.len() as int);
    if k < 0 {
        label
    } else {
        label.subrange(0, k)
    }
}

/// The help text.
pub fn help_text() -> (r: String)
    ensures
        r@ == help_spec(),
{
    String::from_str("사용할 수 있는 명령어 목록입니다.\n/help - 도움말을 봅니다.\n/eval - 스크립트를 실행합니다.")
}

fn strip_mention_exec(label: &str) -> (r: &str)
    ensures
        r@ == strip_mention(label@),
{
    let n = label.unicode_len();
    let mut i: usize = n;
    while i > 0
        invariant
            i <= n,
            n == label@.len(),
            last_at(label@, n as int) == last_at(label@, i as int),
        decreases i,
    {
        if label.get_char(i - 1) == '@' {
            return label.substring_char(0, i - 1);
        }
        i = i - 1;
    }
    label
}

/// Decides what a message asks for. `cmd_line` is the text of the replied-to
/// message when there is one (`is_replied`), else the message's own text.
/// A command is a `'/'`, then a label, optionally followed by `@` and a bot
/// name; help is answered only when asked directly.
pub fn route<'a>(matcher: &CommandMatcher<ExecutorCommand>, cmd_line: &'a str, is_replied: bool) -> (r:
    Route<'a>)
    requires
        matcher.wf(),
    ensures
        ({
            let s = cmd_line@;
            let rest = s.drop_first();
            let label = rest.subrange(token_start(rest), token_end(rest));
            let key = strip_mention(label);
            if s.len() == 0 || s[0] != '/' || token_start(rest) == rest.len()
                || !matcher.view().contains_key(key) {
                r is Ignore
            } else if matcher.view()[key] == ExecutorCommand::Help {
                if is_replied {
                    r is Ignore
                } else {
                    r is Help
                }
            } else {
                r matches Route::Run { args } && args@ == rest.subrange(
                    token_end(rest),
                    rest.len() as int,
                )
            }
        }),
{
    let n = cmd_line.unicode_len();
    if n == 0 {
        return Route::Ignore;
    }
    if cmd_line.get_char(0) != '/' {
        return Route::Ignore;
    }
    let rest = cmd_line.substring_char(1, n);
    assert(rest@ == cmd_line@.drop_first());
    let mut args = Args::wrap(rest);
    proof {
        lemma_token_bounds(rest@);
    }
    match args.next() {
        None => Route::Ignore,
        Some(label) => {
            let key = strip_mention_exec(label);
            match matcher.find(key) {
                None => Route::Ignore,
                Some(ExecutorCommand::Help) => {
                    if is_replied {
                        Route::Ignore
                    } else {
                        Route::Help
                    }
                },
                Some(ExecutorCommand::Run) => Route::Run { args },
            }
        },
    }
}

/// Decides what a run command asks for. Its first word names the language
/// and the rest, without leading white space, is the source. The program
/// reads `trigger_text` when the command came from a reply, and nothing
/// otherwise. Errors are answered only when the command was given directly.
pub fn plan_run<'a>(
    registry: &'a LanguageRegistry,
    args: Args<'a>,
    trigger_text: &'a str,
    is_replied: bool,
) -> (r: RunPlan<'a>)
    ensures
        ({
            let s = args@;
            let code = s.subrange(token_start(s), token_end(s));
            if token_start(s) == s.len() {
                if is_replied {
                    r is Silent
                } else {
                    r matches RunPlan::Reply { text } && text@ == usage_text(registry)
                }
            } else if forall|i: int| 0 <= i < registry@.len() ==> registry@[i].code@ != code {
                if is_replied {
                    r is Silent
                } else {
                    r matches RunPlan::Reply { text } && text@ == unknown_language_text(
                        registry,
                        code,
                    )
                }
            } else {
                r matches RunPlan::Execute { request } && (exists|i: int|
                    0 <= i < registry@.len() && registry@[i] == *request.language
                        && request.language.code@ == code) && request.source@ == trim_start_of(
                    s.subrange(token_end(s), s.len() as int),
                ) && request.stdin@ == (if is_replied {
                    trigger_text@
                } else {
                    Seq::<char>::empty()
                })
            }
        }),
{
    proof {
        lemma_token_bounds(args@);
    }
    let mut args = args;
    let code = match args.next() {
        Some(code) => code,
        None => {
            if is_replied {
                return RunPlan::Silent;
            }
            let mut text = String::from_str(
                "사용법이 잘못되었습니다.\n/eval <언어> <코드>\n<언어>로 <코드>를 실행합니다.\n",
            );
            let listing = registry.available_languages();
            text.append(listing.as_str());
            return RunPlan::Reply { text };
        },
    };
    match registry.find(code) {
        None => {
            if is_replied {
                RunPlan::Silent
            } else {
                let mut text = String::from_str(code);
                text.append("은(는) 사용할 수 없는 언어입니다.\n");
                let listing = registry.available_languages();
                text.append(listing.as_str());
                RunPlan::Reply { text }
            }
        },
        Some(language) => {
            let source = args.as_str();
            let stdin = if is_replied {
                trigger_text
            } else {
                ""
            };
            proof {
                reveal_strlit("");
            }
            RunPlan::Execute { request: ExecutionRequest { language, source, stdin } }
        },
    }
}

} // verus!
