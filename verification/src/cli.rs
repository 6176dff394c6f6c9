//! Command-line options of the scheduled competitive-position check:
//!
//! ```text
//! monitor [--report <path>] [--html <path>] [--trigger <name>]
//!         [--no-signals] [--allow-breach]
//! ```

use vstd::prelude::*;

use crate::text::same_text;

verus! {

/// Options of a scheduled check.
#[derive(Debug, Clone)]
pub struct Options {
    /// Where to write the Markdown report, if anywhere.
    pub report_path: Option<String>,
    /// Where to write the HTML report, if anywhere.
    pub html_path: Option<String>,
    /// The trigger the run is recorded under.
    pub trigger: String,
    /// Whether the run raises signals and opens cases.
    pub raise_signals: bool,
    /// Whether a breach still exits successfully.
    pub allow_breach: bool,
}

/// Options as plain values.
pub struct OptionsView {
    pub report_path: Option<Seq<char>>,
    pub html_path: Option<Seq<char>>,
    pub trigger: Seq<char>,
    pub raise_signals: bool,
    pub allow_breach: bool,
}

impl View for Options {
    type V = OptionsView;

    open spec fn view(&self) -> OptionsView {
        OptionsView {
            report_path: match self.report_path {
                Some(p) => Some(p@),
                None => None,
            },
            html_path: match self.html_path {
                Some(p) => Some(p@),
                None => None,
            },
            trigger: self.trigger@,
            raise_signals: self.raise_signals,
            allow_breach: self.allow_breach,
        }
    }
}

/// The options when no argument is given: no report files, trigger
/// `scheduled`, signals raised, and a breach fails the check.
pub open spec fn default_options() -> OptionsView {
    OptionsView {
        report_path: None,
        html_path: None,
        trigger: "scheduled"@,
        raise_signals: true,
        allow_breach: false,
    }
}

/// Reads `args` from position `i` on, starting from the options `acc`. Each
/// flag that takes a value consumes the argument after it; a later flag
/// overrides an earlier one; the first unknown argument, or a flag missing
/// its value, is an error.
pub open spec fn parse_from(args: Seq<Seq<char>>, i: int, acc: OptionsView) -> Result<
    OptionsView,
    Seq<char>,
>
    decreases args.len() - i,
{
    if i < 0 || i >= args.len() {
        Ok(acc)
    } else if args[i] == "--report"@ {
        if i + 1 < args.len() {
            parse_from(args, i + 2, OptionsView { report_path: Some(args[i + 1]), ..acc })
        } else {
            Err("--report requires a path"@)
        }
    } else if args[i] == "--html"@ {
        if i + 1 < args.len() {
            parse_from(args, i + 2, OptionsView { html_path: Some(args[i + 1]), ..acc })
        } else {
            Err("--html requires a path"@)
        }
    } else if args[i] == "--trigger"@ {
        if i + 1 < args.len() {
            parse_from(args, i + 2, OptionsView { trigger: args[i + 1], ..acc })
        } else {
            Err("--trigger requires a name"@)
        }
    } else if args[i] == "--no-signals"@ {
        parse_from(args, i + 1, OptionsView { raise_signals: false, ..acc })
    } else if args[i] == "--allow-breach"@ {
        parse_from(args, i + 1, OptionsView { allow_breach: true, ..acc })
    } else {
        Err("unknown argument: "@ + args[i])
    }
}

/// The arguments as plain text.
pub open spec fn arg_views(args: Seq<String>) -> Seq<Seq<char>> {
    args.map_values(|a: String| a@)
}

/// Reads the arguments that follow the program name. A flag that needs a
/// value and has none, or an argument that is not a known flag, is refused
/// with a message naming it.
pub fn parse_options(args: &Vec<String>) -> (parsed: Result<Options, String>)
    ensures
        match parse_from(arg_views(args@), 0, default_options()) {
            Ok(expected) => parsed matches Ok(o) && o@ == expected,
            Err(message) => parsed matches Err(m) && m@ == message,
        },
{
    let ghost all = arg_views(args@);
    let mut options = Options {
        report_path: None,
        html_path: None,
        trigger: String::from_str("scheduled"),
        raise_signals: true,
        allow_breach: false,
    };
    let n = args.len();
    let mut i: usize = 0;
    while i < n
        invariant
            n == args@.len(),
            all == arg_views(args@),
            all.len() == n,
            i <= n,
            parse_from(all, 0, default_options()) == parse_from(all, i as int, options@),
        decreases n - i,
    {
        let argument = args[i].as_str();
        assert(all[i as int] == args@[i as int]@);
        if same_text(argument, "--report") {
            if i + 1 < n {
                assert(all[i + 1] == args@[i + 1]@);
                options.report_path = Some(args[i + 1].clone());
                i = i + 2;
            } else {
                return Err(String::from_str("--report requires a path"));
            }
        } else if same_text(argument, "--html") {
            if i + 1 < n {
                assert(all[i + 1] == args@[i + 1]@);
                options.html_path = Some(args[i + 1].clone());
                i = i + 2;
            } else {
                return Err(String::from_str("--html requires a path"));
            }
        } else if same_text(argument, "--trigger") {
            if i + 1 < n {
                assert(all[i + 1] == args@[i + 1]@);
                options.trigger = args[i + 1].clone();
                i = i + 2;
            } else {
                return Err(String::from_str("--trigger requires a name"));
            }
        } else if same_text(argument, "--no-signals") {
            options.raise_signals = false;
            i = i + 1;
        } else if same_text(argument, "--allow-breach") {
            options.allow_breach = true;
            i = i + 1;
        } else {
            let mut message = String::from_str("unknown argument: ");
            message.append(argument);
            return Err(message);
        }
    }
    Ok(options)
}

/// The five flag words are different words.
proof fn lemma_flag_words_distinct()
    ensures
        "--report"@ != "--html"@,
        "--report"@ != "--trigger"@,
        "--report"@ != "--no-signals"@,
        "--report"@ != "--allow-breach"@,
        "--html"@ != "--trigger"@,
        "--html"@ != "--no-signals"@,
        "--html"@ != "--allow-breach"@,
        "--trigger"@ != "--no-signals"@,
        "--trigger"@ != "--allow-breach"@,
        "--no-signals"@ != "--allow-breach"@,
{
    reveal_strlit("--report");
    reveal_strlit("--html");
    reveal_strlit("--trigger");
    reveal_strlit("--no-signals");
    reveal_strlit("--allow-breach");
    assert("--report"@.len() == 8);
    assert("--html"@.len() == 6);
    assert("--trigger"@.len() == 9);
    assert("--no-signals"@.len() == 12);
    assert("--allow-breach"@.len() == 14);
}

proof fn lemma_trailing_switch(args: Seq<Seq<char>>, x: Seq<char>, i: int, acc: OptionsView)
    requires
        0 <= i <= args.len(),
        x == "--allow-breach"@ || x == "--no-signals"@,
        parse_from(args, i, acc) is Ok,
    ensures
        x == "--allow-breach"@ ==> parse_from(args.push(x), i, acc) == Ok::<OptionsView, Seq<char>>(
            (OptionsView { allow_breach: true, ..parse_from(args, i, acc)->Ok_0 }),
        ),
        x == "--no-signals"@ ==> parse_from(args.push(x), i, acc) == Ok::<OptionsView, Seq<char>>(
            (OptionsView { raise_signals: false, ..parse_from(args, i, acc)->Ok_0 }),
        ),
    decreases args.len() - i,
{
    lemma_flag_words_distinct();
    let y = args.push(x);
    if i == args.len() {
        assert(y[i] == x);
        if x == "--no-signals"@ {
            let next = OptionsView { raise_signals: false, ..acc };
            assert(parse_from(y, i + 1, next) == Ok::<OptionsView, Seq<char>>(next));
        } else {
            let next = OptionsView { allow_breach: true, ..acc };
            assert(parse_from(y, i + 1, next) == Ok::<OptionsView, Seq<char>>(next));
        }
    } else {
        assert(y[i] == args[i]);
        if args[i] == "--report"@ {
            assert(y[i + 1] == args[i + 1]);
            lemma_trailing_switch(args, x, i + 2, OptionsView { report_path: Some(args[i + 1]), ..acc });
        } else if args[i] == "--html"@ {
            assert(y[i + 1] == args[i + 1]);
            lemma_trailing_switch(args, x, i + 2, OptionsView { html_path: Some(args[i + 1]), ..acc });
        } else if args[i] == "--trigger"@ {
            assert(y[i + 1] == args[i + 1]);
            lemma_trailing_switch(args, x, i + 2, OptionsView { trigger: args[i + 1], ..acc });
        } else if args[i] == "--no-signals"@ {
            lemma_trailing_switch(args, x, i + 1, OptionsView { raise_signals: false, ..acc });
        } else if args[i] == "--allow-breach"@ {
            lemma_trailing_switch(args, x, i + 1, OptionsView { allow_breach: true, ..acc });
        }
    }
}

proof fn lemma_absent_switches(args: Seq<Seq<char>>, i: int, acc: OptionsView)
    requires
        0 <= i,
        parse_from(args, i, acc) is Ok,
    ensures
        !acc.allow_breach && (forall|j: int| i <= j < args.len() ==> args[j] != "--allow-breach"@)
            ==> !parse_from(args, i, acc)->Ok_0.allow_breach,
        acc.raise_signals && (forall|j: int| i <= j < args.len() ==> args[j] != "--no-signals"@)
            ==> parse_from(args, i, acc)->Ok_0.raise_signals,
    decreases args.len() - i,
{
    lemma_flag_words_distinct();
    if i < args.len() {
        if args[i] == "--report"@ {
            lemma_absent_switches(args, i + 2, OptionsView { report_path: Some(args[i + 1]), ..acc });
        } else if args[i] == "--html"@ {
            lemma_absent_switches(args, i + 2, OptionsView { html_path: Some(args[i + 1]), ..acc });
        } else if args[i] == "--trigger"@ {
            lemma_absent_switches(args, i + 2, OptionsView { trigger: args[i + 1], ..acc });
        } else if args[i] == "--no-signals"@ {
            lemma_absent_switches(args, i + 1, OptionsView { raise_signals: false, ..acc });
        } else if args[i] == "--allow-breach"@ {
            lemma_absent_switches(args, i + 1, OptionsView { allow_breach: true, ..acc });
        }
    }
}

/// Each switch sets its own option and nothing else: adding `--allow-breach`
/// or `--no-signals` after arguments that parse gives the same options with
/// only that switch's option changed.
pub proof fn law_a_switch_sets_only_its_own_option(args: Seq<Seq<char>>)
    ensures
        parse_from(args, 0, default_options()) matches Ok(o) ==> {
            &&& parse_from(args.push("--allow-breach"@), 0, default_options())
                == Ok::<OptionsView, Seq<char>>((OptionsView { allow_breach: true, ..o }))
            &&& parse_from(args.push("--no-signals"@), 0, default_options())
                == Ok::<OptionsView, Seq<char>>((OptionsView { raise_signals: false, ..o }))
        },
{
    if parse_from(args, 0, default_options()) is Ok {
        lemma_trailing_switch(args, "--allow-breach"@, 0, default_options());
        lemma_trailing_switch(args, "--no-signals"@, 0, default_options());
    }
}

/// Without `--allow-breach` among the arguments a breach fails the check,
/// and without `--no-signals` the run raises signals.
pub proof fn law_switches_keep_their_defaults_when_absent(args: Seq<Seq<char>>)
    ensures
        parse_from(args, 0, default_options()) matches Ok(o) ==> {
            &&& (forall|j: int| 0 <= j < args.len() ==> args[j] != "--allow-breach"@)
                ==> !o.allow_breach
            &&& (forall|j: int| 0 <= j < args.len() ==> args[j] != "--no-signals"@)
                ==> o.raise_signals
        },
{
    if parse_from(args, 0, default_options()) is Ok {
        lemma_absent_switches(args, 0, default_options());
    }
}

proof fn lemma_parse_shifted(args: Seq<Seq<char>>, tail: Seq<Seq<char>>, k: int, acc: OptionsView)
    requires
        0 <= k,
    ensures
        parse_from(args + tail, args.len() + k, acc) == parse_from(tail, k, acc),
    decreases tail.len() - k,
{
    let y = args + tail;
    if k < tail.len() {
        assert(y[args.len() + k] == tail[k]);
        if k + 1 < tail.len() {
            assert(y[args.len() + k + 1] == tail[k + 1]);
        }
        let t = tail[k];
        if t == "--report"@ || t == "--html"@ || t == "--trigger"@ {
            if k + 1 < tail.len() {
                let next = if t == "--report"@ {
                    OptionsView { report_path: Some(tail[k + 1]), ..acc }
                } else if t == "--html"@ {
                    OptionsView { html_path: Some(tail[k + 1]), ..acc }
                } else {
                    OptionsView { trigger: tail[k + 1], ..acc }
                };
                lemma_parse_shifted(args, tail, k + 2, next);
            }
        } else if t == "--no-signals"@ {
            lemma_parse_shifted(args, tail, k + 1, OptionsView { raise_signals: false, ..acc });
        } else if t == "--allow-breach"@ {
            lemma_parse_shifted(args, tail, k + 1, OptionsView { allow_breach: true, ..acc });
        }
    }
}

proof fn lemma_parse_prefix(args: Seq<Seq<char>>, tail: Seq<Seq<char>>, i: int, acc: OptionsView)
    requires
        0 <= i <= args.len(),
        parse_from(args, i, acc) is Ok,
    ensures
        parse_from(args + tail, i, acc) == parse_from(tail, 0, parse_from(args, i, acc)->Ok_0),
    decreases args.len() - i,
{
    let y = args + tail;
    if i == args.len() {
        lemma_parse_shifted(args, tail, 0, acc);
    } else {
        assert(y[i] == args[i]);
        if i + 1 < args.len() {
            assert(y[i + 1] == args[i + 1]);
        }
        let a = args[i];
        if a == "--report"@ {
            lemma_parse_prefix(args, tail, i + 2, OptionsView { report_path: Some(args[i + 1]), ..acc });
        } else if a == "--html"@ {
            lemma_parse_prefix(args, tail, i + 2, OptionsView { html_path: Some(args[i + 1]), ..acc });
        } else if a == "--trigger"@ {
            lemma_parse_prefix(args, tail, i + 2, OptionsView { trigger: args[i + 1], ..acc });
        } else if a == "--no-signals"@ {
            lemma_parse_prefix(args, tail, i + 1, OptionsView { raise_signals: false, ..acc });
        } else if a == "--allow-breach"@ {
            lemma_parse_prefix(args, tail, i + 1, OptionsView { allow_breach: true, ..acc });
        }
    }
}

/// Reading arguments in two parts gives what reading them at once gives:
/// when `args` parse, parsing `args` followed by `tail` is parsing `tail`
/// from the options `args` gave.
pub proof fn law_parsing_continues_from_earlier_arguments(args: Seq<Seq<char>>, tail: Seq<Seq<char>>)
    ensures
        parse_from(args, 0, default_options()) matches Ok(o) ==> parse_from(
            args + tail,
            0,
            default_options(),
        ) == parse_from(tail, 0, o),
{
    if parse_from(args, 0, default_options()) is Ok {
        lemma_parse_prefix(args, tail, 0, default_options());
    }
}

/// What each flag does to the options read so far, whatever they are:
/// `--report`, `--html` and `--trigger` set their own option to the argument
/// that follows and refuse to stand last; `--no-signals` and `--allow-breach`
/// set their own switch; any other argument is refused by name.
pub proof fn law_each_flag_sets_its_own_option(acc: OptionsView, value: Seq<char>, other: Seq<char>)
    ensures
        parse_from(seq!["--report"@, value], 0, acc) == Ok::<OptionsView, Seq<char>>(
            (OptionsView { report_path: Some(value), ..acc }),
        ),
        parse_from(seq!["--html"@, value], 0, acc) == Ok::<OptionsView, Seq<char>>(
            (OptionsView { html_path: Some(value), ..acc }),
        ),
        parse_from(seq!["--trigger"@, value], 0, acc) == Ok::<OptionsView, Seq<char>>(
            (OptionsView { trigger: value, ..acc }),
        ),
        parse_from(seq!["--report"@], 0, acc) == Err::<OptionsView, Seq<char>>(
            "--report requires a path"@,
        ),
        parse_from(seq!["--html"@], 0, acc) == Err::<OptionsView, Seq<char>>(
            "--html requires a path"@,
        ),
        parse_from(seq!["--trigger"@], 0, acc) == Err::<OptionsView, Seq<char>>(
            "--trigger requires a name"@,
        ),
        parse_from(seq!["--no-signals"@], 0, acc) == Ok::<OptionsView, Seq<char>>(
            (OptionsView { raise_signals: false, ..acc }),
        ),
        parse_from(seq!["--allow-breach"@], 0, acc) == Ok::<OptionsView, Seq<char>>(
            (OptionsView { allow_breach: true, ..acc }),
        ),
        other != "--report"@ && other != "--html"@ && other != "--trigger"@ && other
            != "--no-signals"@ && other != "--allow-breach"@ ==> parse_from(seq![other], 0, acc)
            == Err::<OptionsView, Seq<char>>("unknown argument: "@ + other),
{
    lemma_flag_words_distinct();
    let r = OptionsView { report_path: Some(value), ..acc };
    assert(parse_from(seq!["--report"@, value], 2, r) == Ok::<OptionsView, Seq<char>>(r));
    let h = OptionsView { html_path: Some(value), ..acc };
    assert(parse_from(seq!["--html"@, value], 2, h) == Ok::<OptionsView, Seq<char>>(h));
    let t = OptionsView { trigger: value, ..acc };
    assert(parse_from(seq!["--trigger"@, value], 2, t) == Ok::<OptionsView, Seq<char>>(t));
    let n = OptionsView { raise_signals: false, ..acc };
    assert(parse_from(seq!["--no-signals"@], 1, n) == Ok::<OptionsView, Seq<char>>(n));
    let b = OptionsView { allow_breach: true, ..acc };
    assert(parse_from(seq!["--allow-breach"@], 1, b) == Ok::<OptionsView, Seq<char>>(b));
}

} // verus!
