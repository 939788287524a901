use vstd::prelude::*;

use crate::errors::UprobeError;
use crate::text::{first_char_is, starts_with_char, str_eq};

verus! {

/// Types of options (prefixed by `-`).
#[derive(Debug, Clone, Copy, PartialEq, Eq, Structural)]
pub enum OptParsingAction {
    /// No option value is pending.
    NoPositional,
    /// The next bare token is an option value that is not kept.
    Skip,
    /// The next bare token is the value of `--bundle`, which is kept.
    Bundle,
}

/// Types of positional arguments.
#[derive(Debug, Clone, Copy, PartialEq, Eq, Structural)]
pub enum ArgParsingAction {
    /// Argument that is not kept.
    Ignore,
    /// The next bare token is the container id.
    ContainerId,
}

/// Action performed on a container, defined by a runtime subcommand.
#[derive(Debug, Clone, Copy, PartialEq, Eq, Structural)]
pub enum ContainerAction {
    /// Any other action: the process is only attributed to its container.
    Other,
    /// The container is created and gets registered.
    Create,
    /// The container is deleted and gets unregistered.
    Delete,
}

/// State of the runtime argument parser.
pub struct ParseState {
    pub opt: OptParsingAction,
    pub arg: ArgParsingAction,
    pub action: ContainerAction,
    pub container_id: Option<Seq<char>>,
    pub bundle: Option<Seq<char>>,
}

pub open spec fn initial_state() -> ParseState {
    ParseState {
        opt: OptParsingAction::NoPositional,
        arg: ArgParsingAction::Ignore,
        action: ContainerAction::Other,
        container_id: None,
        bundle: None,
    }
}

/// Options whose value is consumed and discarded.
pub open spec fn is_skip_option(a: Seq<char>) -> bool {
    ||| a == "--log"@
    ||| a == "--log-format"@
    ||| a == "--pid-file"@
    ||| a == "--process"@
    ||| a == "--console-socket"@
    ||| a == "--root"@
}

/// Subcommands that take a container id but do not change its registration.
pub open spec fn is_other_subcommand(a: Seq<char>) -> bool {
    ||| a == "checkpoint"@
    ||| a == "events"@
    ||| a == "exec"@
    ||| a == "kill"@
    ||| a == "pause"@
    ||| a == "ps"@
    ||| a == "restore"@
    ||| a == "resume"@
    ||| a == "run"@
    ||| a == "start"@
    ||| a == "state"@
    ||| a == "update"@
}

/// Every subcommand that is followed by a container id.
pub open spec fn is_subcommand(a: Seq<char>) -> bool {
    a == "create"@ || a == "delete"@ || is_other_subcommand(a)
}

/// The action that a subcommand sets.
pub open spec fn subcommand_action(a: Seq<char>) -> ContainerAction {
    if a == "create"@ {
        ContainerAction::Create
    } else if a == "delete"@ {
        ContainerAction::Delete
    } else {
        ContainerAction::Other
    }
}

/// The option state after reading `a`: options arm it, anything else keeps it.
pub open spec fn next_opt(opt: OptParsingAction, a: Seq<char>) -> OptParsingAction {
    if is_skip_option(a) {
        OptParsingAction::Skip
    } else if a == "--bundle"@ {
        OptParsingAction::Bundle
    } else {
        opt
    }
}

/// One step of the runtime argument parser.
pub open spec fn runc_step(s: ParseState, a: Seq<char>) -> ParseState {
    let opt = next_opt(s.opt, a);
    if starts_with_char(a, '-') {
        ParseState { opt, ..s }
    } else {
        match opt {
            OptParsingAction::Skip => ParseState { opt: OptParsingAction::NoPositional, ..s },
            OptParsingAction::Bundle => ParseState {
                opt: OptParsingAction::NoPositional,
                bundle: Some(a),
                ..s
            },
            OptParsingAction::NoPositional => match s.arg {
                ArgParsingAction::ContainerId => ParseState {
                    opt,
                    arg: ArgParsingAction::Ignore,
                    container_id: Some(a),
                    ..s
                },
                ArgParsingAction::Ignore => if is_subcommand(a) {
                    ParseState {
                        opt,
                        arg: ArgParsingAction::ContainerId,
                        action: if a == "create"@ || a == "delete"@ {
                            subcommand_action(a)
                        } else {
                            s.action
                        },
                        ..s
                    }
                } else {
                    ParseState { opt, ..s }
                },
            },
        }
    }
}

/// The parser state after reading `args` from `s`.
pub open spec fn runc_parse_from(s: ParseState, args: Seq<Seq<char>>) -> ParseState
    decreases args.len(),
{
    if args.len() == 0 {
        s
    } else {
        runc_step(runc_parse_from(s, args.drop_last()), args.last())
    }
}

pub open spec fn runc_parse(args: Seq<Seq<char>>) -> ParseState {
    runc_parse_from(initial_state(), args)
}

/// Options that consume the token after them.
pub open spec fn is_value_option(a: Seq<char>) -> bool {
    is_skip_option(a) || a == "--bundle"@
}

/// Each pair is a value-taking option followed by a bare value.
pub open spec fn option_pairs_ok(p: Seq<(Seq<char>, Seq<char>)>) -> bool {
    forall|i: int| 0 <= i < p.len() ==> is_value_option(#[trigger] p[i].0) && !starts_with_char(p[i].1, '-')
}

/// The arguments that a list of option pairs is written as.
pub open spec fn flatten_pairs(p: Seq<(Seq<char>, Seq<char>)>) -> Seq<Seq<char>>
    decreases p.len(),
{
    if p.len() == 0 {
        Seq::empty()
    } else {
        flatten_pairs(p.drop_last()) + seq![p.last().0, p.last().1]
    }
}

/// The bundle after a list of option pairs: the last `--bundle` value, else `b`.
pub open spec fn bundle_after(p: Seq<(Seq<char>, Seq<char>)>, b: Option<Seq<char>>) -> Option<Seq<char>>
    decreases p.len(),
{
    if p.len() == 0 {
        b
    } else if p.last().0 == "--bundle"@ {
        Some(p.last().1)
    } else {
        bundle_after(p.drop_last(), b)
    }
}

proof fn lemma_option_literals()
    ensures
        forall|a: Seq<char>| is_value_option(a) ==> starts_with_char(a, '-'),
        !is_skip_option("--bundle"@),
{
    reveal_strlit("--log");
    reveal_strlit("--log-format");
    reveal_strlit("--pid-file");
    reveal_strlit("--process");
    reveal_strlit("--console-socket");
    reveal_strlit("--root");
    reveal_strlit("--bundle");
    assert("--log"@[0] == '-' && "--log-format"@[0] == '-' && "--pid-file"@[0] == '-');
    assert("--process"@[0] == '-' && "--console-socket"@[0] == '-' && "--root"@[0] == '-');
    assert("--bundle"@[0] == '-');
    assert("--bundle"@.len() == 8 && "--log"@.len() == 5 && "--log-format"@.len() == 12);
    assert("--pid-file"@.len() == 10 && "--process"@.len() == 9);
    assert("--console-socket"@.len() == 16 && "--root"@.len() == 6);
}

proof fn lemma_subcommand_literals()
    ensures
        forall|a: Seq<char>| is_subcommand(a) ==> !starts_with_char(a, '-'),
{
    reveal_strlit("create");
    reveal_strlit("delete");
    reveal_strlit("checkpoint");
    reveal_strlit("events");
    reveal_strlit("exec");
    reveal_strlit("kill");
    reveal_strlit("pause");
    reveal_strlit("ps");
    reveal_strlit("restore");
    reveal_strlit("resume");
    reveal_strlit("run");
    reveal_strlit("start");
    reveal_strlit("state");
    reveal_strlit("update");
    assert("create"@[0] == 'c' && "delete"@[0] == 'd' && "checkpoint"@[0] == 'c');
    assert("events"@[0] == 'e' && "exec"@[0] == 'e' && "kill"@[0] == 'k');
    assert("pause"@[0] == 'p' && "ps"@[0] == 'p' && "restore"@[0] == 'r');
    assert("resume"@[0] == 'r' && "run"@[0] == 'r' && "start"@[0] == 's');
    assert("state"@[0] == 's' && "update"@[0] == 'u');
}

proof fn lemma_parse_one(s: ParseState, a: Seq<char>)
    ensures
        runc_parse_from(s, seq![a]) == runc_step(s, a),
{
    assert(seq![a].drop_last() =~= Seq::<Seq<char>>::empty());
    assert(runc_parse_from(s, Seq::<Seq<char>>::empty()) == s);
    assert(seq![a].last() == a);
}

proof fn lemma_parse_two(s: ParseState, a: Seq<char>, b: Seq<char>)
    ensures
        runc_parse_from(s, seq![a, b]) == runc_step(runc_step(s, a), b),
{
    lemma_parse_one(s, a);
    assert(seq![a, b].drop_last() =~= seq![a]);
    assert(seq![a, b].last() == b);
}

proof fn lemma_parse_append(s: ParseState, a: Seq<Seq<char>>, b: Seq<Seq<char>>)
    ensures
        runc_parse_from(s, a + b) == runc_parse_from(runc_parse_from(s, a), b),
    decreases b.len(),
{
    if b.len() == 0 {
        assert(a + b =~= a);
    } else {
        lemma_parse_append(s, a, b.drop_last());
        assert((a + b).drop_last() =~= a + b.drop_last());
    }
}

/// Option pairs read while no option value is pending change nothing but the bundle.
proof fn lemma_pairs_transparent(s: ParseState, p: Seq<(Seq<char>, Seq<char>)>)
    requires
        s.opt == OptParsingAction::NoPositional,
        option_pairs_ok(p),
    ensures
        runc_parse_from(s, flatten_pairs(p)) == (ParseState { bundle: bundle_after(p, s.bundle), ..s }),
    decreases p.len(),
{
    if p.len() > 0 {
        let q = p.drop_last();
        let (f, v) = p.last();
        assert(option_pairs_ok(q)) by {
            assert forall|i: int| 0 <= i < q.len() implies is_value_option(#[trigger] q[i].0) && !starts_with_char(q[i].1, '-') by {
                assert(q[i] == p[i]);
            }
        }
        assert(p[p.len() - 1] == p.last());
        lemma_pairs_transparent(s, q);
        lemma_parse_append(s, flatten_pairs(q), seq![f, v]);
        lemma_option_literals();
        let mid = runc_parse_from(s, flatten_pairs(q));
        assert(seq![f, v].drop_last() =~= seq![f]);
        assert(seq![f].drop_last() =~= Seq::<Seq<char>>::empty());
        assert(starts_with_char(f, '-'));
        assert(!is_value_option(v));
        let t = runc_step(mid, f);
        lemma_parse_two(mid, f, v);
        assert(t.opt == OptParsingAction::Skip || t.opt == OptParsingAction::Bundle);
        assert(runc_step(t, v) == (ParseState { bundle: bundle_after(p, s.bundle), ..s }));
    } else {
        assert(flatten_pairs(p) =~= Seq::<Seq<char>>::empty());
    }
}

/// Where the option pairs stand around a subcommand and its container id
/// does not change the parse: before the subcommand, between it and the id,
/// or after the id, the result is that subcommand's action, that id, and the
/// last `--bundle` value.
pub proof fn lemma_flag_order_irrelevant(
    p: Seq<(Seq<char>, Seq<char>)>,
    sub: Seq<char>,
    id: Seq<char>,
)
    requires
        option_pairs_ok(p),
        is_subcommand(sub),
        !starts_with_char(id, '-'),
    ensures
        ({
            let expected = ParseState {
                opt: OptParsingAction::NoPositional,
                arg: ArgParsingAction::Ignore,
                action: subcommand_action(sub),
                container_id: Some(id),
                bundle: bundle_after(p, None),
            };
            &&& runc_parse(flatten_pairs(p) + seq![sub, id]) == expected
            &&& runc_parse(seq![sub] + flatten_pairs(p) + seq![id]) == expected
            &&& runc_parse(seq![sub, id] + flatten_pairs(p)) == expected
        }),
{
    lemma_option_literals();
    lemma_subcommand_literals();
    let s0 = initial_state();
    let fp = flatten_pairs(p);
    assert(seq![sub, id].drop_last() =~= seq![sub]);
    assert(seq![sub].drop_last() =~= Seq::<Seq<char>>::empty());
    assert(seq![id].drop_last() =~= Seq::<Seq<char>>::empty());
    assert(!is_value_option(sub));
    assert(!is_value_option(id));
    lemma_parse_two(s0, sub, id);
    lemma_parse_one(s0, sub);
    let b = bundle_after(p, None);
    // Pairs first.
    lemma_pairs_transparent(s0, p);
    lemma_parse_append(s0, fp, seq![sub, id]);
    lemma_parse_two(ParseState { bundle: b, ..s0 }, sub, id);
    // Pairs between the subcommand and the id.
    let s1 = runc_step(s0, sub);
    assert(s1.opt == OptParsingAction::NoPositional);
    lemma_parse_append(s0, seq![sub], fp);
    lemma_parse_append(s0, seq![sub] + fp, seq![id]);
    lemma_pairs_transparent(s1, p);
    lemma_parse_one(ParseState { bundle: b, ..s1 }, id);
    // Pairs last.
    let s2 = runc_step(s1, id);
    lemma_parse_append(s0, seq![sub, id], fp);
    lemma_pairs_transparent(s2, p);
}

pub open spec fn opt_string_view(o: Option<String>) -> Option<Seq<char>> {
    match o {
        Some(s) => Some(s@),
        None => None,
    }
}

pub open spec fn args_view(args: Seq<String>) -> Seq<Seq<char>> {
    args.map_values(|a: String| a@)
}

/// What a runtime invocation does to which container.
#[derive(Debug, Clone, PartialEq, Eq)]
pub struct RuncInvocation {
    pub action: ContainerAction,
    pub container_id: Option<String>,
    pub bundle: Option<String>,
}

impl RuncInvocation {
    pub open spec fn matches(&self, s: ParseState) -> bool {
        &&& self.action == s.action
        &&& opt_string_view(self.container_id) == s.container_id
        &&& opt_string_view(self.bundle) == s.bundle
    }
}

/// Kind of a token that may stand in subcommand position.
#[derive(Debug, Clone, Copy, PartialEq, Eq, Structural)]
pub enum SubcommandKind {
    Create,
    Delete,
    Other,
    NotSubcommand,
}

/// Classifies a token against the recognized subcommands.
pub fn classify_subcommand(a: &str) -> (r: SubcommandKind)
    ensures
        r == SubcommandKind::Create <==> a@ == "create"@,
        r == SubcommandKind::Delete <==> a@ == "delete"@,
        r == SubcommandKind::Other <==> is_other_subcommand(a@),
        r == SubcommandKind::NotSubcommand <==> !is_subcommand(a@),
{
    proof {
        reveal_strlit("create");
        reveal_strlit("delete");
        reveal_strlit("checkpoint");
        reveal_strlit("events");
        reveal_strlit("exec");
        reveal_strlit("kill");
        reveal_strlit("pause");
        reveal_strlit("ps");
        reveal_strlit("restore");
        reveal_strlit("resume");
        reveal_strlit("run");
        reveal_strlit("start");
        reveal_strlit("state");
        reveal_strlit("update");
        assert("create"@.len() == 6 && "checkpoint"@.len() == 10);
        assert("create"@[0] == 'c' && "delete"@[0] == 'd' && "events"@[0] == 'e');
        assert("resume"@[0] == 'r' && "update"@[0] == 'u');
    }
    if str_eq(a, "create") {
        SubcommandKind::Create
    } else if str_eq(a, "delete") {
        SubcommandKind::Delete
    } else if str_eq(a, "checkpoint") || str_eq(a, "events") || str_eq(a, "exec") || str_eq(
        a,
        "kill",
    ) || str_eq(a, "pause") || str_eq(a, "ps") || str_eq(a, "restore") || str_eq(a, "resume")
        || str_eq(a, "run") || str_eq(a, "start") || str_eq(a, "state") || str_eq(a, "update") {
        SubcommandKind::Other
    } else {
        SubcommandKind::NotSubcommand
    }
}

/// The option state after reading `a`.
fn read_option(opt: OptParsingAction, a: &str) -> (r: OptParsingAction)
    ensures
        r == next_opt(opt, a@),
{
    if str_eq(a, "--log") || str_eq(a, "--log-format") || str_eq(a, "--pid-file") || str_eq(
        a,
        "--process",
    ) || str_eq(a, "--console-socket") || str_eq(a, "--root") {
        OptParsingAction::Skip
    } else if str_eq(a, "--bundle") {
        OptParsingAction::Bundle
    } else {
        opt
    }
}

/// Parses the arguments of a runtime invocation into the action it performs,
/// the container id and the bundle path. Options may stand in any order; the
/// first bare token after a subcommand is the container id.
pub fn parse_runc_args(args: &Vec<String>) -> (r: RuncInvocation)
    ensures
        r.matches(runc_parse(args_view(args@))),
{
    let mut opt = OptParsingAction::NoPositional;
    let mut argp = ArgParsingAction::Ignore;
    let mut action = ContainerAction::Other;
    let mut container_id: Option<String> = None;
    let mut bundle: Option<String> = None;
    let mut i: usize = 0;
    while i < args.len()
        invariant
            0 <= i <= args.len(),
            ({
                let s = runc_parse(args_view(args@.take(i as int)));
                &&& s.opt == opt
                &&& s.arg == argp
                &&& s.action == action
                &&& s.container_id == opt_string_view(container_id)
                &&& s.bundle == opt_string_view(bundle)
            }),
        decreases args.len() - i,
    {
        let a = args[i].as_str();
        proof {
            assert(args_view(args@.take(i as int + 1)).drop_last() =~= args_view(
                args@.take(i as int),
            ));
            assert(args_view(args@.take(i as int + 1)).last() == a@);
        }
        opt = read_option(opt, a);
        if !first_char_is(a, '-') {
            match opt {
                OptParsingAction::Skip => {
                    opt = OptParsingAction::NoPositional;
                },
                OptParsingAction::Bundle => {
                    bundle = Some(args[i].clone());
                    opt = OptParsingAction::NoPositional;
                },
                OptParsingAction::NoPositional => match argp {
                    ArgParsingAction::ContainerId => {
                        container_id = Some(args[i].clone());
                        argp = ArgParsingAction::Ignore;
                    },
                    ArgParsingAction::Ignore => match classify_subcommand(a) {
                        SubcommandKind::Create => {
                            argp = ArgParsingAction::ContainerId;
                            action = ContainerAction::Create;
                        },
                        SubcommandKind::Delete => {
                            argp = ArgParsingAction::ContainerId;
                            action = ContainerAction::Delete;
                        },
                        SubcommandKind::Other => {
                            argp = ArgParsingAction::ContainerId;
                        },
                        SubcommandKind::NotSubcommand => {},
                    },
                },
            }
        }
        i = i + 1;
    }
    proof {
        assert(args@.take(args.len() as int) =~= args@);
    }
    RuncInvocation { action, container_id, bundle }
}

} // verus!

verus! {

/// Option state of the shim argument parser.
#[derive(Debug, Clone, Copy, PartialEq, Eq, Structural)]
pub enum ShimOptParsingAction {
    NoPositional,
    Skip,
    ContainerId,
}

/// Action of a shim invocation.
#[derive(Debug, Clone, Copy, PartialEq, Eq, Structural)]
pub enum ShimContainerAction {
    Other,
    Delete,
}

/// State of the shim argument parser.
pub struct ShimParseState {
    pub opt: ShimOptParsingAction,
    pub action: ShimContainerAction,
    pub container_id: Option<Seq<char>>,
}

/// Shim options whose value is consumed and discarded.
pub open spec fn is_shim_skip_option(a: Seq<char>) -> bool {
    ||| a == "-address"@
    ||| a == "-bundle"@
    ||| a == "-namespace"@
    ||| a == "-publish-binary"@
}

pub open spec fn next_shim_opt(opt: ShimOptParsingAction, a: Seq<char>) -> ShimOptParsingAction {
    if is_shim_skip_option(a) {
        ShimOptParsingAction::Skip
    } else if a == "-id"@ {
        ShimOptParsingAction::ContainerId
    } else {
        opt
    }
}

/// One step of the shim argument parser.
pub open spec fn shim_step(s: ShimParseState, a: Seq<char>) -> ShimParseState {
    let opt = next_shim_opt(s.opt, a);
    if starts_with_char(a, '-') {
        ShimParseState { opt, ..s }
    } else {
        match opt {
            ShimOptParsingAction::Skip => ShimParseState {
                opt: ShimOptParsingAction::NoPositional,
                ..s
            },
            ShimOptParsingAction::ContainerId => ShimParseState {
                opt: ShimOptParsingAction::NoPositional,
                container_id: Some(a),
                ..s
            },
            ShimOptParsingAction::NoPositional => if a == "delete"@ {
                ShimParseState { opt, action: ShimContainerAction::Delete, ..s }
            } else {
                ShimParseState { opt, ..s }
            },
        }
    }
}

pub open spec fn shim_parse(args: Seq<Seq<char>>) -> ShimParseState
    decreases args.len(),
{
    if args.len() == 0 {
        ShimParseState {
            opt: ShimOptParsingAction::NoPositional,
            action: ShimContainerAction::Other,
            container_id: None,
        }
    } else {
        shim_step(shim_parse(args.drop_last()), args.last())
    }
}

/// What a shim invocation does to which container.
#[derive(Debug, Clone, PartialEq, Eq)]
pub struct ShimInvocation {
    pub action: ShimContainerAction,
    pub container_id: Option<String>,
}

fn read_shim_option(opt: ShimOptParsingAction, a: &str) -> (r: ShimOptParsingAction)
    ensures
        r == next_shim_opt(opt, a@),
{
    if str_eq(a, "-address") || str_eq(a, "-bundle") || str_eq(a, "-namespace") || str_eq(
        a,
        "-publish-binary",
    ) {
        ShimOptParsingAction::Skip
    } else if str_eq(a, "-id") {
        ShimOptParsingAction::ContainerId
    } else {
        opt
    }
}

/// Parses the arguments of a shim invocation: its only action of interest is
/// a bare `delete`, and `-id` carries the container id.
pub fn parse_shim_args(args: &Vec<String>) -> (r: ShimInvocation)
    ensures
        r.action == shim_parse(args_view(args@)).action,
        opt_string_view(r.container_id) == shim_parse(args_view(args@)).container_id,
{
    let mut opt = ShimOptParsingAction::NoPositional;
    let mut action = ShimContainerAction::Other;
    let mut container_id: Option<String> = None;
    let mut i: usize = 0;
    while i < args.len()
        invariant
            0 <= i <= args.len(),
            ({
                let s = shim_parse(args_view(args@.take(i as int)));
                &&& s.opt == opt
                &&& s.action == action
                &&& s.container_id == opt_string_view(container_id)
            }),
        decreases args.len() - i,
    {
        let a = args[i].as_str();
        proof {
            assert(args_view(args@.take(i as int + 1)).drop_last() =~= args_view(
                args@.take(i as int),
            ));
            assert(args_view(args@.take(i as int + 1)).last() == a@);
        }
        opt = read_shim_option(opt, a);
        if !first_char_is(a, '-') {
            match opt {
                ShimOptParsingAction::Skip => {
                    opt = ShimOptParsingAction::NoPositional;
                },
                ShimOptParsingAction::ContainerId => {
                    container_id = Some(args[i].clone());
                    opt = ShimOptParsingAction::NoPositional;
                },
                ShimOptParsingAction::NoPositional => {
                    if str_eq(a, "delete") {
                        action = ShimContainerAction::Delete;
                    }
                },
            }
        }
        i = i + 1;
    }
    proof {
        assert(args@.take(args.len() as int) =~= args@);
    }
    ShimInvocation { action, container_id }
}

} // verus!

verus! {

/// Relies on `libc::EAGAIN`, which is 11 on Linux.
#[verifier::external_body]
fn errno_eagain() -> (r: i32)
    ensures
        r == 11,
{
    libc::EAGAIN
}

/// Relies on `libc::EINVAL`, which is 22 on Linux.
#[verifier::external_body]
fn errno_einval() -> (r: i32)
    ensures
        r == 22,
{
    libc::EINVAL
}

/// Maps the return code of a probe call: zero is success, `-EAGAIN` means
/// the programs did not run, `-EINVAL` that they failed.
pub fn check_uprobe_ret(ret: i32) -> (r: Result<(), UprobeError>)
    ensures
        ret == 0 ==> r == Ok::<(), UprobeError>(()),
        ret == -11 ==> r == Err::<(), UprobeError>(UprobeError::Call),
        ret == -22 ==> r == Err::<(), UprobeError>(UprobeError::BPF),
        ret != 0 && ret != -11 && ret != -22 ==> r == Err::<(), UprobeError>(UprobeError::Unknown),
{
    if ret == 0 {
        Ok(())
    } else if ret == -errno_eagain() {
        Err(UprobeError::Call)
    } else if ret == -errno_einval() {
        Err(UprobeError::BPF)
    } else {
        Err(UprobeError::Unknown)
    }
}

} // verus!
