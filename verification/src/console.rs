//! The operator surface's computational parts: flag and argument parsing and
//! the synthetic event streams the `simulate` verbs inject through the real
//! pipeline. Printing and dispatch live in the surrounding binary.

use vstd::prelude::*;
use vstd::string::StringExecFns;
use crate::config::{strs_view, Config};
use crate::engine::{empty_engine, incidents_match, run_spec, Engine};
use crate::protected_paths::Roots;
use crate::response::{handle_incident, red_action_tail, red_requests_enable, EnableAutoRequest};
use crate::text::{parse_u64_spec, parse_u64_dec, str_eq};
use crate::types::{max_severity_spec, Event, EventM, FileAccessType, Incident, Severity};

verus! {

/// What a console invocation decides: run a subcommand and exit, or start the
/// agent loop.
#[derive(Debug, Clone, Copy, PartialEq, Eq, Structural)]
pub enum ConsoleAction {
    RunAgent,
    ExitOk,
}

pub open spec fn parse_bool_spec(s: Seq<char>) -> Option<bool> {
    if s == "true"@ || s == "1"@ || s == "yes"@ || s == "on"@ {
        Some(true)
    } else if s == "false"@ || s == "0"@ || s == "no"@ || s == "off"@ {
        Some(false)
    } else {
        None
    }
}

/// Parses the operator's boolean argument.
pub fn parse_bool(s: &str) -> (r: Option<bool>)
    ensures
        r == parse_bool_spec(s@),
{
    if str_eq(s, "true") || str_eq(s, "1") || str_eq(s, "yes") || str_eq(s, "on") {
        Some(true)
    } else if str_eq(s, "false") || str_eq(s, "0") || str_eq(s, "no") || str_eq(s, "off") {
        Some(false)
    } else {
        None
    }
}

/// The value after the first `--limit` flag, when it parses.
pub open spec fn parse_limit_spec(args: Seq<Seq<char>>) -> Option<u64>
    decreases args.len(),
{
    if args.len() == 0 {
        None
    } else if args[0] == "--limit"@ {
        if args.len() >= 2 {
            parse_u64_spec(args[1])
        } else {
            None
        }
    } else {
        parse_limit_spec(args.drop_first())
    }
}

proof fn lemma_parse_limit_skip(args: Seq<Seq<char>>, i: int)
    requires
        0 <= i <= args.len(),
        forall|j: int| 0 <= j < i ==> args[j] != "--limit"@,
    ensures
        parse_limit_spec(args) == parse_limit_spec(args.skip(i)),
    decreases i,
{
    if i > 0 {
        assert(args[0] != "--limit"@);
        lemma_parse_limit_skip(args.drop_first(), i - 1);
        assert(args.drop_first().skip(i - 1) =~= args.skip(i));
    } else {
        assert(args.skip(0) =~= args);
    }
}

/// Parses the `--limit N` argument of `incidents list`.
pub fn parse_limit(args: &Vec<String>) -> (r: Option<u64>)
    ensures
        r == parse_limit_spec(strs_view(args@)),
{
    let ghost av = strs_view(args@);
    let mut i: usize = 0;
    while i < args.len()
        invariant
            av == strs_view(args@),
            i <= args@.len(),
            forall|j: int| 0 <= j < i ==> av[j] != "--limit"@,
        decreases args@.len() - i,
    {
        let hit = str_eq(args[i].as_str(), "--limit");
        assert(av[i as int] == args@[i as int]@);
        if hit {
            proof {
                lemma_parse_limit_skip(av, i as int);
                assert(av.skip(i as int)[0] == av[i as int]);
            }
            if i + 1 < args.len() {
                let r = parse_u64_dec(args[i + 1].as_str());
                proof {
                    assert(av.skip(i as int)[1] == av[i + 1]);
                }
                return r;
            } else {
                proof {
                    assert(av.skip(i as int).len() == 1);
                }
                return None;
            }
        }
        i += 1;
    }
    proof {
        lemma_parse_limit_skip(av, i as int);
        assert(av.skip(i as int).len() == 0);
    }
    None
}

pub open spec fn kept_arg(a: Seq<char>) -> bool {
    a != "--console"@ && a != "--dry-run"@
}

/// The arguments with the global flags removed.
pub open spec fn strip_spec(args: Seq<Seq<char>>) -> Seq<Seq<char>>
    decreases args.len(),
{
    if args.len() == 0 {
        Seq::empty()
    } else {
        strip_spec(args.drop_last()) + (if kept_arg(args.last()) {
            seq![args.last()]
        } else {
            Seq::<Seq<char>>::empty()
        })
    }
}

/// Removes the global `--console` and `--dry-run` flags before subcommand
/// parsing.
pub fn strip_console_flag(args: &Vec<String>) -> (r: Vec<String>)
    ensures
        strs_view(r@) == strip_spec(strs_view(args@)),
{
    let ghost av = strs_view(args@);
    let mut out: Vec<String> = Vec::new();
    let mut i: usize = 0;
    while i < args.len()
        invariant
            av == strs_view(args@),
            i <= args@.len(),
            strs_view(out@) =~= strip_spec(av.take(i as int)),
        decreases args@.len() - i,
    {
        let keep = !str_eq(args[i].as_str(), "--console") && !str_eq(args[i].as_str(), "--dry-run");
        assert(av[i as int] == args@[i as int]@);
        let ghost o0 = strs_view(out@);
        if keep {
            out.push(args[i].clone());
        }
        proof {
            assert(av.take(i + 1).drop_last() =~= av.take(i as int));
            assert(av.take(i + 1).last() == av[i as int]);
            if keep {
                assert(strs_view(out@) =~= o0.push(av[i as int]));
                assert(strip_spec(av.take(i + 1)) =~= strip_spec(av.take(i as int)).push(
                    av[i as int],
                ));
            } else {
                assert(strip_spec(av.take(i + 1)) =~= strip_spec(av.take(i as int)));
            }
        }
        i += 1;
    }
    proof {
        assert(av.take(av.len() as int) =~= av);
    }
    out
}

/// One of the argument strings equals the word.
pub open spec fn has_arg(args: Seq<Seq<char>>, w: Seq<char>) -> bool {
    exists|j: int| 0 <= j < args.len() && #[trigger] args[j] == w
}

/// The position of the first argument equal to the flag, if any.
pub fn find_flag(args: &Vec<String>, flag: &str) -> (r: Option<usize>)
    ensures
        (match r {
            Some(i) => i < args@.len() && strs_view(args@)[i as int] == flag@ && (forall|j: int|
                0 <= j < i ==> strs_view(args@)[j] != flag@),
            None => !has_arg(strs_view(args@), flag@),
        }),
{
    let ghost av = strs_view(args@);
    let mut i: usize = 0;
    while i < args.len()
        invariant
            av == strs_view(args@),
            i <= args@.len(),
            forall|j: int| 0 <= j < i ==> av[j] != flag@,
        decreases args@.len() - i,
    {
        let hit = str_eq(args[i].as_str(), flag);
        assert(av[i as int] == args@[i as int]@);
        if hit {
            return Some(i);
        }
        i += 1;
    }
    None
}

/// Which subcommand an invocation names. The payload is the position of the
/// verb's flag; its arguments follow it.
#[derive(Debug, Clone, Copy, PartialEq, Eq, Structural)]
pub enum ConsoleVerb {
    Help,
    KillSwitch(usize),
    Incidents(usize),
    Simulate(usize),
    License(usize),
    Feed(usize),
    RunAgent,
}

/// A flag of the verb stands first at the returned position.
pub open spec fn verb_at(args: Seq<Seq<char>>, w: Seq<char>, i: usize) -> bool {
    i < args.len() && args[i as int] == w && (forall|j: int| 0 <= j < i ==> args[j] != w)
}

/// Classifies an invocation, in the dispatch order of the console: a help
/// flag anywhere wins; then the first `--killswitch`, `--incidents`,
/// `--simulate`, `--license` or `--feed` flag, in that precedence; with none
/// of them, the agent loop runs.
pub fn console_verb(args: &Vec<String>) -> (r: ConsoleVerb)
    ensures
        ({
            let av = strs_view(args@);
            let help = has_arg(av, "--help"@) || has_arg(av, "-h"@);
            &&& (help <==> r == ConsoleVerb::Help)
            &&& (r matches ConsoleVerb::KillSwitch(i) ==> verb_at(av, "--killswitch"@, i))
            &&& (!help && has_arg(av, "--killswitch"@) ==> r is KillSwitch)
            &&& (r matches ConsoleVerb::Incidents(i) ==> verb_at(av, "--incidents"@, i)
                && !has_arg(av, "--killswitch"@))
            &&& (!help && !has_arg(av, "--killswitch"@) && has_arg(av, "--incidents"@) ==> r
                is Incidents)
            &&& (r matches ConsoleVerb::Simulate(i) ==> verb_at(av, "--simulate"@, i))
            &&& (r matches ConsoleVerb::License(i) ==> verb_at(av, "--license"@, i))
            &&& (r matches ConsoleVerb::Feed(i) ==> verb_at(av, "--feed"@, i))
            &&& (r == ConsoleVerb::RunAgent <==> (!help && !has_arg(av, "--killswitch"@)
                && !has_arg(av, "--incidents"@) && !has_arg(av, "--simulate"@) && !has_arg(
                av,
                "--license"@,
            ) && !has_arg(av, "--feed"@)))
        }),
{
    if find_flag(args, "--help").is_some() || find_flag(args, "-h").is_some() {
        return ConsoleVerb::Help;
    }
    if let Some(i) = find_flag(args, "--killswitch") {
        return ConsoleVerb::KillSwitch(i);
    }
    if let Some(i) = find_flag(args, "--incidents") {
        return ConsoleVerb::Incidents(i);
    }
    if let Some(i) = find_flag(args, "--simulate") {
        return ConsoleVerb::Simulate(i);
    }
    if let Some(i) = find_flag(args, "--license") {
        return ConsoleVerb::License(i);
    }
    if let Some(i) = find_flag(args, "--feed") {
        return ConsoleVerb::Feed(i);
    }
    ConsoleVerb::RunAgent
}

/// The synthetic credential-theft chain the `simulate` verbs inject: a
/// process start without a publisher, a read of the Chrome login store, and
/// an outbound connect to a bare address.
pub fn simulate_chain_events(localappdata: &str, now_unix_ms: u64) -> (r: Vec<Event>)
    ensures
        r@.len() == 3,
        r@[0]@ == (EventM::ProcessStart {
            pid: 4242u32,
            ppid: 0u32,
            image_path: "C:\\Temp\\evil.exe"@,
            signer_publisher: None,
            timestamp_unix_ms: now_unix_ms,
        }),
        r@[1]@ == (EventM::FileAccess {
            pid: 4242u32,
            image_path: Some("C:\\Temp\\evil.exe"@),
            file_path: localappdata@ + "\\Google\\Chrome\\User Data\\Default\\Login Data"@,
            access: FileAccessType::Read,
            timestamp_unix_ms: crate::feed::sat_add(now_unix_ms, 1000),
        }),
        r@[2]@ == (EventM::NetConnect {
            pid: 4242u32,
            image_path: Some("C:\\Temp\\evil.exe"@),
            dest_ip: "1.2.3.4"@,
            dest_port: 443u16,
            dest_host: None,
            protocol: "tcp"@,
            timestamp_unix_ms: crate::feed::sat_add(now_unix_ms, 2000),
        }),
{
    let image = String::from_str("C:\\Temp\\evil.exe");
    let file_path = String::from_str(localappdata).concat(
        "\\Google\\Chrome\\User Data\\Default\\Login Data",
    );
    let mut r: Vec<Event> = Vec::new();
    r.push(
        Event::ProcessStart {
            pid: 4242,
            ppid: 0,
            image_path: image.clone(),
            signer_publisher: None,
            timestamp_unix_ms: now_unix_ms,
        },
    );
    r.push(
        Event::FileAccess {
            pid: 4242,
            image_path: Some(image.clone()),
            file_path,
            access: FileAccessType::Read,
            timestamp_unix_ms: now_unix_ms.saturating_add(1000),
        },
    );
    r.push(
        Event::NetConnect {
            pid: 4242,
            image_path: Some(image),
            dest_ip: String::from_str("1.2.3.4"),
            dest_port: 443,
            dest_host: None,
            protocol: String::from_str("tcp"),
            timestamp_unix_ms: now_unix_ms.saturating_add(2000),
        },
    );
    r
}

/// Incidents paired with the kill-switch requests the response engine made
/// for them.
pub open spec fn pipeline_post(
    cfg: crate::config::ConfigM,
    groups: Seq<Seq<crate::types::FindingM>>,
    r: Seq<(Incident, Option<EnableAutoRequest>)>,
) -> bool {
    &&& r.len() == groups.len()
    &&& forall|i: int|
        0 <= i < r.len() ==> {
            let inc = (#[trigger] r[i]).0;
            let req = r[i].1;
            &&& inc@.findings == groups[i]
            &&& inc@.severity == max_severity_spec(groups[i])
            &&& inc@.actions_taken == (if max_severity_spec(groups[i]) == Severity::Red {
                red_action_tail(cfg)
            } else {
                Seq::<Seq<char>>::empty()
            })
            &&& (req is Some <==> (max_severity_spec(groups[i]) == Severity::Red
                && red_requests_enable(cfg)))
            &&& (req matches Some(q) ==> q.incident_id@ == inc@.incident_id && q.failsafe_minutes
                == cfg.killswitch.failsafe_minutes)
        }
}

/// Runs events through a fresh engine and the response engine, as the
/// `simulate` verbs do: one incident (with its kill-switch request) per
/// emitted finding group. The caller performs any requested engage and
/// persists each incident. In learning mode, or with the kill switch disabled
/// by configuration, no request is ever produced.
pub fn run_events_through_pipeline(cfg: &Config, roots: &Roots, events: &Vec<Event>) -> (r: Vec<
    (Incident, Option<EnableAutoRequest>),
>)
    ensures
        pipeline_post(
            cfg@,
            run_spec(
                cfg@,
                roots.local_appdata@,
                roots.roaming_appdata@,
                empty_engine(),
                events@.map_values(|e: Event| e@),
            ).groups,
            r@,
        ),
        cfg.mode == crate::config::Mode::Learning ==> forall|i: int|
            0 <= i < r@.len() ==> (#[trigger] r@[i]).1 is None,
        !cfg.killswitch.enabled ==> forall|i: int| 0 <= i < r@.len() ==> (#[trigger] r@[i]).1 is None,
{
    let mut engine = Engine::new();
    proof {
        assert(engine@ =~= empty_engine());
    }
    let ghost groups = run_spec(
        cfg@,
        roots.local_appdata@,
        roots.roaming_appdata@,
        empty_engine(),
        events@.map_values(|e: Event| e@),
    ).groups;
    let mut incidents = engine.process(cfg, roots, events);
    let ghost n = incidents@.len();
    let mut out: Vec<(Incident, Option<EnableAutoRequest>)> = Vec::new();
    proof {
        assert(incidents_match(incidents@.map_values(|x: Incident| x@), groups));
    }
    while incidents.len() > 0
        invariant
            out@.len() + incidents@.len() == groups.len(),
            incidents_match(
                incidents@.map_values(|x: Incident| x@),
                groups.skip(out@.len() as int),
            ),
            pipeline_post(cfg@, groups.take(out@.len() as int), out@),
            cfg.mode == crate::config::Mode::Learning ==> forall|i: int|
                0 <= i < out@.len() ==> (#[trigger] out@[i]).1 is None,
            !cfg.killswitch.enabled ==> forall|i: int|
                0 <= i < out@.len() ==> (#[trigger] out@[i]).1 is None,
        decreases incidents@.len(),
    {
        let ghost k = out@.len() as int;
        let ghost remv = incidents@.map_values(|x: Incident| x@);
        let mut inc = incidents.remove(0);
        proof {
            assert(remv.len() == groups.skip(k).len());
            assert(inc@ == remv[0]);
            assert(remv[0].findings == groups.skip(k)[0]);
            assert(groups.skip(k)[0] == groups[k]);
            assert(inc@.actions_taken.len() == 0);
            assert(inc@.severity == max_severity_spec(groups[k]));
        }
        let req = handle_incident(cfg, &mut inc);
        proof {
            assert(inc@.actions_taken =~= (if max_severity_spec(groups[k]) == Severity::Red {
                Seq::<Seq<char>>::empty() + red_action_tail(cfg@)
            } else {
                Seq::<Seq<char>>::empty()
            }));
            if max_severity_spec(groups[k]) == Severity::Red {
                assert(Seq::<Seq<char>>::empty() + red_action_tail(cfg@) =~= red_action_tail(
                    cfg@,
                ));
            }
        }
        let ghost outv0 = out@;
        out.push((inc, req));
        proof {
            assert(out@ =~= outv0.push((inc, req)));
            assert(incidents@.map_values(|x: Incident| x@) =~= remv.drop_first());
            assert(groups.skip(k).drop_first() =~= groups.skip(k + 1));
            assert(incidents_match(
                incidents@.map_values(|x: Incident| x@),
                groups.skip(k + 1),
            )) by {
                let newv = incidents@.map_values(|x: Incident| x@);
                assert forall|j: int| 0 <= j < newv.len() implies (#[trigger] newv[j]).findings
                    == groups.skip(k + 1)[j] && newv[j].severity == max_severity_spec(
                    groups.skip(k + 1)[j],
                ) && newv[j].actions_taken.len() == 0 by {
                    assert(newv[j] == remv[j + 1]);
                    assert(groups.skip(k + 1)[j] == groups.skip(k)[j + 1]);
                }
            }
            assert(pipeline_post(cfg@, groups.take(k + 1), out@)) by {
                assert(groups.take(k + 1)[k] == groups[k]);
                assert forall|j: int| 0 <= j < out@.len() implies {
                    let inc2 = (#[trigger] out@[j]).0;
                    let req2 = out@[j].1;
                    &&& inc2@.findings == groups.take(k + 1)[j]
                    &&& inc2@.severity == max_severity_spec(groups.take(k + 1)[j])
                    &&& inc2@.actions_taken == (if max_severity_spec(groups.take(k + 1)[j])
                        == Severity::Red {
                        red_action_tail(cfg@)
                    } else {
                        Seq::<Seq<char>>::empty()
                    })
                    &&& (req2 is Some <==> (max_severity_spec(groups.take(k + 1)[j])
                        == Severity::Red && red_requests_enable(cfg@)))
                    &&& (req2 matches Some(q) ==> q.incident_id@ == inc2@.incident_id
                        && q.failsafe_minutes == cfg@.killswitch.failsafe_minutes)
                } by {
                    if j < k {
                        assert(out@[j] == outv0[j]);
                        assert(groups.take(k + 1)[j] == groups.take(k)[j]);
                    } else {
                        assert(out@[j] == (inc, req));
                    }
                }
            }
        }
    }
    proof {
        assert(groups.take(groups.len() as int) =~= groups);
        assert(out@.len() == groups.len());
    }
    out
}

} // verus!
