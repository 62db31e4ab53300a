use vstd::prelude::*;

use crate::text::{digit_value, parse_usize, spec_parse_usize, str_eq};

verus! {

/// The banner that frames a diagnostic: a fixed header (a title line and the
/// fixed location `src/utils.rs`, line 21, column 13), the diagnostic
/// itself, and a closing rule.
pub open spec fn spec_dbg_str(inject: Seq<char>) -> Seq<char> {
    "****** DEBUG ******\nFile: src/utils.rs\nLine: 21\nCol: 13\n"@ + inject + "*******************\n"@
}

/// Frames a diagnostic in the debug banner.
pub fn DBG_STR(inject: &str) -> (s: String)
    ensures
        s@ == spec_dbg_str(inject@),
{
    String::from_str("****** DEBUG ******\nFile: src/utils.rs\nLine: 21\nCol: 13\n").concat(
        inject,
    ).concat("*******************\n")
}

/// Run-time configuration gathered from the command line.
#[derive(Debug, Clone)]
pub struct Zecro_conf {
    vcpu_cnt: usize,
    is_smp: bool,
    dirty_log: bool,
    kargs: Vec<String>,
}

impl Zecro_conf {
    /// Number of virtual CPUs requested.
    pub closed spec fn spec_vcpu_cnt(&self) -> usize {
        self.vcpu_cnt
    }

    /// Whether SMP mode was requested.
    pub closed spec fn spec_is_smp(&self) -> bool {
        self.is_smp
    }

    /// Whether dirty-page logging was requested.
    pub closed spec fn spec_dirty_log(&self) -> bool {
        self.dirty_log
    }

    /// The kernel command-line words collected.
    pub closed spec fn spec_kargs(&self) -> Seq<Seq<char>> {
        self.kargs@.map_values(|s: String| s@)
    }

    /// The default configuration: one vCPU, no SMP, no dirty logging, no
    /// kernel arguments.
    pub fn new() -> (c: Self)
        ensures
            c.spec_vcpu_cnt() == 1,
            !c.spec_is_smp(),
            !c.spec_dirty_log(),
            c.spec_kargs() == Seq::<Seq<char>>::empty(),
    {
        let c = Self { vcpu_cnt: 1, is_smp: false, dirty_log: false, kargs: Vec::new() };
        assert(c.spec_kargs() =~= Seq::<Seq<char>>::empty());
        c
    }

    pub fn vcpu_cnt(&self) -> (r: usize)
        ensures
            r == self.spec_vcpu_cnt(),
    {
        self.vcpu_cnt
    }

    pub fn is_smp(&self) -> (r: bool)
        ensures
            r == self.spec_is_smp(),
    {
        self.is_smp
    }

    pub fn dirty_log(&self) -> (r: bool)
        ensures
            r == self.spec_dirty_log(),
    {
        self.dirty_log
    }

    pub fn kargs(&self) -> (r: &Vec<String>)
        ensures
            r@.map_values(|s: String| s@) == self.spec_kargs(),
    {
        &self.kargs
    }
}

/// Why a command line was refused.
#[derive(Debug, Clone, Copy, PartialEq, Eq, Structural)]
pub enum ArgError {
    /// `-c`/`--vcpus` was the last argument.
    MissingVcpuCount,
    /// The value after `-c`/`--vcpus` is not a non-negative integer.
    InvalidVcpuCount,
    /// An argument that is neither an option nor a kernel command-line word.
    UnknownArgument,
    /// `--smp` was given, but the vCPU count is below two.
    SmpNeedsTwoVcpus,
}

/// What a command line asks for.
pub enum ArgsOutcome {
    /// Run with this configuration.
    Run(Zecro_conf),
    /// Print the usage text and stop.
    Help,
}

/// The verdict on a command line, over plain values.
pub enum ArgsVerdict {
    Run { vcpu_cnt: usize, is_smp: bool, dirty_log: bool, kargs: Seq<Seq<char>> },
    Help,
    Refused(ArgError),
}

/// `t.clamp(lo, hi)` for `lo <= hi`.
pub open spec fn spec_clamp(t: usize, lo: usize, hi: usize) -> usize {
    if t < lo {
        lo
    } else if t > hi {
        hi
    } else {
        t
    }
}

/// The options the command line knows.
pub open spec fn is_option(a: Seq<char>) -> bool {
    ||| a == "-h"@
    ||| a == "--help"@
    ||| a == "-c"@
    ||| a == "--vcpus"@
    ||| a == "--dirty-log"@
    ||| a == "--smp"@
    ||| a == "-a"@
    ||| a == "--cmdline"@
}

/// Scans the arguments from position `i` on, left to right, with the
/// configuration built so far. `collecting` says whether the words since the
/// last `-a`/`--cmdline` are kernel command-line words.
///
/// A word that is not an option, while collecting, is appended to the kernel
/// command line. Otherwise: `-h`/`--help` asks for help; `-c`/`--vcpus` takes
/// the next argument as the vCPU count, clamped to `1..=limit`;
/// `--dirty-log` and `--smp` set their flags; `-a`/`--cmdline` starts
/// collecting; anything else is refused. At the end, SMP with fewer than two
/// vCPUs is refused.
pub open spec fn scan_args(
    args: Seq<Seq<char>>,
    limit: usize,
    i: nat,
    vcpu_cnt: usize,
    is_smp: bool,
    dirty_log: bool,
    kargs: Seq<Seq<char>>,
    collecting: bool,
) -> ArgsVerdict
    decreases args.len() - i,
{
    if i >= args.len() {
        if is_smp && vcpu_cnt < 2 {
            ArgsVerdict::Refused(ArgError::SmpNeedsTwoVcpus)
        } else {
            ArgsVerdict::Run { vcpu_cnt, is_smp, dirty_log, kargs }
        }
    } else {
        let a = args[i as int];
        if collecting && !is_option(a) {
            scan_args(args, limit, i + 1, vcpu_cnt, is_smp, dirty_log, kargs.push(a), true)
        } else if a == "-h"@ || a == "--help"@ {
            ArgsVerdict::Help
        } else if a == "-c"@ || a == "--vcpus"@ {
            if i + 1 < args.len() {
                match spec_parse_usize(args[i + 1int]) {
                    Some(t) => scan_args(
                        args,
                        limit,
                        i + 2,
                        spec_clamp(t, 1, limit),
                        is_smp,
                        dirty_log,
                        kargs,
                        false,
                    ),
                    None => ArgsVerdict::Refused(ArgError::InvalidVcpuCount),
                }
            } else {
                ArgsVerdict::Refused(ArgError::MissingVcpuCount)
            }
        } else if a == "--dirty-log"@ {
            scan_args(args, limit, i + 1, vcpu_cnt, is_smp, true, kargs, false)
        } else if a == "--smp"@ {
            scan_args(args, limit, i + 1, vcpu_cnt, true, dirty_log, kargs, false)
        } else if a == "-a"@ || a == "--cmdline"@ {
            scan_args(args, limit, i + 1, vcpu_cnt, is_smp, dirty_log, kargs, true)
        } else {
            ArgsVerdict::Refused(ArgError::UnknownArgument)
        }
    }
}

/// The verdict on a whole command line. The first argument is the program
/// name and is skipped; the scan starts from the default configuration.
pub open spec fn spec_parse_args(args: Seq<Seq<char>>, limit: usize) -> ArgsVerdict {
    scan_args(args, limit, 1, 1, false, false, Seq::empty(), false)
}

/// Whether `args` holds `word` at some position from `from` on.
pub open spec fn names_from(args: Seq<Seq<char>>, from: int, word: Seq<char>) -> bool {
    exists|j: int| from <= j < args.len() && #[trigger] args[j] == word
}

/// Whether `args` names the vCPU-count option at some position from `from` on.
pub open spec fn names_vcpu_option(args: Seq<Seq<char>>, from: int) -> bool {
    names_from(args, from, "-c"@) || names_from(args, from, "--vcpus"@)
}

proof fn lemma_option_literals()
    ensures
        "-h"@.len() == 2 && "-h"@[0] == '-' && "-h"@[1] == 'h',
        "-c"@.len() == 2 && "-c"@[0] == '-' && "-c"@[1] == 'c',
        "-a"@.len() == 2 && "-a"@[0] == '-' && "-a"@[1] == 'a',
        "--smp"@.len() == 5 && "--smp"@[0] == '-',
        "--help"@.len() == 6 && "--help"@[0] == '-',
        "--vcpus"@.len() == 7,
        "--cmdline"@.len() == 9,
        "--dirty-log"@.len() == 11 && "--dirty-log"@[0] == '-',
{
    reveal_strlit("-h");
    reveal_strlit("--help");
    reveal_strlit("-c");
    reveal_strlit("--vcpus");
    reveal_strlit("--dirty-log");
    reveal_strlit("--smp");
    reveal_strlit("-a");
    reveal_strlit("--cmdline");
}

proof fn lemma_flag_is_not_a_number(flag: Seq<char>)
    requires
        flag.len() > 0,
        flag[0] == '-',
    ensures
        spec_parse_usize(flag) is None,
{
    assert(digit_value(flag[0]) is None);
}

proof fn lemma_scan(
    args: Seq<Seq<char>>,
    limit: usize,
    i: nat,
    vcpu_cnt: usize,
    is_smp: bool,
    dirty_log: bool,
    kargs: Seq<Seq<char>>,
    collecting: bool,
)
    requires
        limit >= 1,
        1 <= vcpu_cnt <= limit,
    ensures
        scan_args(args, limit, i, vcpu_cnt, is_smp, dirty_log, kargs, collecting) matches ArgsVerdict::Run {
            vcpu_cnt: c,
            is_smp: s,
            dirty_log: d,
            ..
        } ==> {
            &&& 1 <= c <= limit
            &&& s ==> c >= 2
            &&& d <==> (dirty_log || names_from(args, i as int, "--dirty-log"@))
            &&& s <==> (is_smp || names_from(args, i as int, "--smp"@))
            &&& !names_vcpu_option(args, i as int) ==> c == vcpu_cnt
        },
    decreases args.len() - i,
{
    lemma_option_literals();
    if i < args.len() {
        let a = args[i as int];
        let v = scan_args(args, limit, i, vcpu_cnt, is_smp, dirty_log, kargs, collecting);
        if collecting && !is_option(a) {
            lemma_scan(args, limit, i + 1, vcpu_cnt, is_smp, dirty_log, kargs.push(a), true);
            assert(a != "--dirty-log"@ && a != "--smp"@);
        } else if a == "-h"@ || a == "--help"@ {
        } else if a == "-c"@ || a == "--vcpus"@ {
            if i + 1 < args.len() {
                if let Some(t) = spec_parse_usize(args[i + 1int]) {
                    lemma_scan(args, limit, i + 2, spec_clamp(t, 1, limit), is_smp, dirty_log, kargs, false);
                    if args[i + 1int] == "--dirty-log"@ {
                        lemma_flag_is_not_a_number("--dirty-log"@);
                    }
                    if args[i + 1int] == "--smp"@ {
                        lemma_flag_is_not_a_number("--smp"@);
                    }
                    assert(args[i + 1int] != "--dirty-log"@ && args[i + 1int] != "--smp"@);
                    assert(names_vcpu_option(args, i as int));
                }
            }
        } else if a == "--dirty-log"@ {
            lemma_scan(args, limit, i + 1, vcpu_cnt, is_smp, true, kargs, false);
        } else if a == "--smp"@ {
            lemma_scan(args, limit, i + 1, vcpu_cnt, true, dirty_log, kargs, false);
        } else if a == "-a"@ || a == "--cmdline"@ {
            lemma_scan(args, limit, i + 1, vcpu_cnt, is_smp, dirty_log, kargs, true);
        }
        if v is Run {
            assert(names_from(args, i as int, "--dirty-log"@) <==> (a == "--dirty-log"@ || names_from(
                args,
                i + 1int,
                "--dirty-log"@,
            )));
            assert(names_from(args, i as int, "--smp"@) <==> (a == "--smp"@ || names_from(
                args,
                i + 1int,
                "--smp"@,
            )));
            assert(names_vcpu_option(args, i as int) <==> (a == "-c"@ || a == "--vcpus"@
                || names_vcpu_option(args, i + 1int)));
            if i + 1 < args.len() {
                assert(names_from(args, i + 1int, "--dirty-log"@) <==> (args[i + 1int] == "--dirty-log"@
                    || names_from(args, i + 2int, "--dirty-log"@)));
                assert(names_from(args, i + 1int, "--smp"@) <==> (args[i + 1int] == "--smp"@ || names_from(
                    args,
                    i + 2int,
                    "--smp"@,
                )));
            }
        }
    }
}

proof fn lemma_scan_words(
    args: Seq<Seq<char>>,
    limit: usize,
    i: nat,
    vcpu_cnt: usize,
    is_smp: bool,
    dirty_log: bool,
    kargs: Seq<Seq<char>>,
    collecting: bool,
)
    requires
        forall|k: int| 0 <= k < kargs.len() ==> !is_option(#[trigger] kargs[k]),
    ensures
        scan_args(args, limit, i, vcpu_cnt, is_smp, dirty_log, kargs, collecting) matches ArgsVerdict::Run {
            kargs: ks,
            ..
        } ==> {
            &&& forall|k: int| 0 <= k < ks.len() ==> !is_option(#[trigger] ks[k])
            &&& forall|j: int| i <= j < args.len() ==> #[trigger] args[j] != "-h"@ && args[j] != "--help"@
        },
    decreases args.len() - i,
{
    lemma_option_literals();
    if i < args.len() {
        let a = args[i as int];
        if collecting && !is_option(a) {
            let k2 = kargs.push(a);
            assert forall|k: int| 0 <= k < k2.len() implies !is_option(#[trigger] k2[k]) by {
                if k < kargs.len() {
                    assert(k2[k] == kargs[k]);
                }
            }
            lemma_scan_words(args, limit, i + 1, vcpu_cnt, is_smp, dirty_log, k2, true);
        } else if a == "-h"@ || a == "--help"@ {
        } else if a == "-c"@ || a == "--vcpus"@ {
            if i + 1 < args.len() {
                if let Some(t) = spec_parse_usize(args[i + 1int]) {
                    lemma_scan_words(args, limit, i + 2, spec_clamp(t, 1, limit), is_smp, dirty_log, kargs, false);
                    if args[i + 1int] == "-h"@ {
                        lemma_flag_is_not_a_number("-h"@);
                    }
                    if args[i + 1int] == "--help"@ {
                        lemma_flag_is_not_a_number("--help"@);
                    }
                }
            }
        } else if a == "--dirty-log"@ {
            lemma_scan_words(args, limit, i + 1, vcpu_cnt, is_smp, true, kargs, false);
        } else if a == "--smp"@ {
            lemma_scan_words(args, limit, i + 1, vcpu_cnt, true, dirty_log, kargs, false);
        } else if a == "-a"@ || a == "--cmdline"@ {
            lemma_scan_words(args, limit, i + 1, vcpu_cnt, is_smp, dirty_log, kargs, true);
        }
    }
}

/// Help is never swallowed: a command line that runs names neither `-h` nor
/// `--help` anywhere after the program name (so one that does either asks
/// for help or is refused), and its kernel command line holds no option word.
pub proof fn lemma_help_never_swallowed(args: Seq<Seq<char>>, limit: usize)
    ensures
        spec_parse_args(args, limit) matches ArgsVerdict::Run { kargs, .. } ==> {
            &&& forall|k: int| 0 <= k < kargs.len() ==> !is_option(#[trigger] kargs[k])
            &&& forall|j: int| 1 <= j < args.len() ==> #[trigger] args[j] != "-h"@ && args[j] != "--help"@
        },
{
    lemma_scan_words(args, limit, 1, 1, false, false, Seq::empty(), false);
}

/// The laws of an accepted command line: the vCPU count lies between 1 and
/// the host limit, and is 1 unless `-c`/`--vcpus` is given; SMP comes only
/// with two or more vCPUs; dirty logging is on exactly when `--dirty-log`
/// is given, and SMP exactly when `--smp` is given (the program name aside).
pub proof fn lemma_accepted_command_line(args: Seq<Seq<char>>, limit: usize)
    requires
        limit >= 1,
    ensures
        spec_parse_args(args, limit) matches ArgsVerdict::Run {
            vcpu_cnt: c,
            is_smp: s,
            dirty_log: d,
            ..
        } ==> {
            &&& 1 <= c <= limit
            &&& s ==> c >= 2
            &&& d <==> names_from(args, 1, "--dirty-log"@)
            &&& s <==> names_from(args, 1, "--smp"@)
            &&& !names_vcpu_option(args, 1) ==> c == 1
        },
{
    lemma_scan(args, limit, 1, 1, false, false, Seq::empty(), false);
}

/// A command line whose first option is `-h` or `--help` asks for help,
/// whatever follows.
pub proof fn lemma_help_first(args: Seq<Seq<char>>, limit: usize)
    requires
        args.len() > 1,
        args[1] == "-h"@ || args[1] == "--help"@,
    ensures
        spec_parse_args(args, limit) is Help,
{
}

/// While collecting after `-a`/`--cmdline`, a run of words that are not
/// options, from position `i` up to position `e` (the next option or the end),
/// is appended in order to the kernel command line, and the scan goes on at
/// `e` with nothing else changed.
pub proof fn lemma_cmdline_words(
    args: Seq<Seq<char>>,
    limit: usize,
    i: nat,
    e: nat,
    vcpu_cnt: usize,
    is_smp: bool,
    dirty_log: bool,
    kargs: Seq<Seq<char>>,
)
    requires
        i <= e <= args.len(),
        forall|j: int| i <= j < e ==> !is_option(#[trigger] args[j]),
    ensures
        scan_args(args, limit, i, vcpu_cnt, is_smp, dirty_log, kargs, true) == scan_args(
            args,
            limit,
            e,
            vcpu_cnt,
            is_smp,
            dirty_log,
            kargs + args.subrange(i as int, e as int),
            true,
        ),
    decreases e - i,
{
    if i == e {
        assert(kargs + args.subrange(i as int, e as int) =~= kargs);
    } else {
        assert(!is_option(args[i as int]));
        lemma_cmdline_words(args, limit, i + 1, e, vcpu_cnt, is_smp, dirty_log, kargs.push(args[i as int]));
        assert(kargs.push(args[i as int]) + args.subrange(i + 1int, e as int) =~= kargs + args.subrange(
            i as int,
            e as int,
        ));
    }
}

/// A command line made of `--cmdline` and then only words that are not
/// options runs with the defaults and those words, in order, as its kernel
/// command line.
pub proof fn lemma_cmdline_only(args: Seq<Seq<char>>, limit: usize)
    requires
        args.len() >= 2,
        args[1] == "--cmdline"@,
        forall|j: int| 2 <= j < args.len() ==> !is_option(#[trigger] args[j]),
    ensures
        spec_parse_args(args, limit) == (ArgsVerdict::Run {
            vcpu_cnt: 1,
            is_smp: false,
            dirty_log: false,
            kargs: args.subrange(2, args.len() as int),
        }),
{
    lemma_option_literals();
    let e = Seq::<Seq<char>>::empty();
    assert(args[1] != "-h"@ && args[1] != "--help"@ && args[1] != "-c"@ && args[1] != "--vcpus"@);
    assert(args[1] != "--dirty-log"@ && args[1] != "--smp"@);
    assert(spec_parse_args(args, limit) == scan_args(args, limit, 2, 1, false, false, e, true));
    lemma_cmdline_words(args, limit, 2, args.len(), 1, false, false, e);
    assert(e + args.subrange(2, args.len() as int) =~= args.subrange(2, args.len() as int));
}

/// Whether an outcome is the one a verdict describes.
pub open spec fn outcome_is(r: Result<ArgsOutcome, ArgError>, v: ArgsVerdict) -> bool {
    match v {
        ArgsVerdict::Run { vcpu_cnt, is_smp, dirty_log, kargs } => r matches Ok(ArgsOutcome::Run(c))
            && c.spec_vcpu_cnt() == vcpu_cnt && c.spec_is_smp() == is_smp && c.spec_dirty_log()
            == dirty_log && c.spec_kargs() == kargs,
        ArgsVerdict::Help => r matches Ok(ArgsOutcome::Help),
        ArgsVerdict::Refused(e) => r == Err::<ArgsOutcome, ArgError>(e),
    }
}

/// The views of a list of arguments.
pub open spec fn arg_views(args: Seq<String>) -> Seq<Seq<char>> {
    args.map_values(|s: String| s@)
}

fn is_option_exec(a: &str) -> (b: bool)
    ensures
        b == is_option(a@),
{
    str_eq(a, "-h") || str_eq(a, "--help") || str_eq(a, "-c") || str_eq(a, "--vcpus") || str_eq(
        a,
        "--dirty-log",
    ) || str_eq(a, "--smp") || str_eq(a, "-a") || str_eq(a, "--cmdline")
}

/// Interprets a command line. `args` is the whole argument list as the
/// process received it, program name first; `limit` is the largest vCPU
/// count the host allows.
pub fn parse_args_from(args: &Vec<String>, limit: usize) -> (r: Result<ArgsOutcome, ArgError>)
    requires
        limit >= 1,
    ensures
        outcome_is(r, spec_parse_args(arg_views(args@), limit)),
{
    let ghost views = arg_views(args@);
    let l = args.len();
    let mut i: usize = 1;
    let mut ret = Zecro_conf::new();
    let mut collecting = false;
    while i < l
        invariant
            l == args@.len(),
            views == arg_views(args@),
            1 <= i,
            i <= l || l == 0,
            1 <= ret.spec_vcpu_cnt() <= limit,
            spec_parse_args(views, limit) == scan_args(
                views,
                limit,
                i as nat,
                ret.spec_vcpu_cnt(),
                ret.spec_is_smp(),
                ret.spec_dirty_log(),
                ret.spec_kargs(),
                collecting,
            ),
        decreases l - i,
    {
        let a = args[i].as_str();
        assert(a@ == views[i as int]);
        if collecting && !is_option_exec(a) {
            let word = args[i].clone();
            let ghost before = ret.kargs@;
            ret.kargs.push(word);
            assert(ret.kargs@.map_values(|s: String| s@) =~= before.map_values(|s: String| s@).push(
                views[i as int],
            ));
        } else {
            collecting = false;
            if str_eq(a, "-h") || str_eq(a, "--help") {
                return Ok(ArgsOutcome::Help);
            } else if str_eq(a, "-c") || str_eq(a, "--vcpus") {
                if i + 1 < l {
                    i = i + 1;
                    assert(args[i as int]@ == views[i as int]);
                    match parse_usize(args[i].as_str()) {
                        Some(t) => {
                            ret.vcpu_cnt = if t < 1 {
                                1
                            } else if t > limit {
                                limit
                            } else {
                                t
                            };
                        },
                        None => {
                            return Err(ArgError::InvalidVcpuCount);
                        },
                    }
                } else {
                    return Err(ArgError::MissingVcpuCount);
                }
            } else if str_eq(a, "--dirty-log") {
                ret.dirty_log = true;
            } else if str_eq(a, "--smp") {
                ret.is_smp = true;
            } else if str_eq(a, "-a") || str_eq(a, "--cmdline") {
                collecting = true;
            } else {
                return Err(ArgError::UnknownArgument);
            }
        }
        i = i + 1;
    }
    if ret.is_smp && ret.vcpu_cnt < 2 {
        return Err(ArgError::SmpNeedsTwoVcpus);
    }
    Ok(ArgsOutcome::Run(ret))
}

} // verus!
