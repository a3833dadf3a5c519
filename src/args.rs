use vstd::prelude::*;
use crate::config::{Config, base_args, texts};
use crate::opt::DebugType;

verus! {

/// The decimal digit `d` (`d < 10`).
pub open spec fn digit_char(d: nat) -> char {
    seq!['0', '1', '2', '3', '4', '5', '6', '7', '8', '9'][d as int]
}

/// Decimal digits of `n`, most significant first, without leading zeros.
pub open spec fn digits(n: nat) -> Seq<char>
    decreases n,
{
    if n < 10 {
        seq![digit_char(n)]
    } else {
        digits(n / 10).push(digit_char(n % 10))
    }
}

/// Decimal text of `n`, with a leading `-` when it is negative.
pub open spec fn decimal_text(n: int) -> Seq<char> {
    if n < 0 {
        seq!['-'] + digits((-n) as nat)
    } else {
        digits(n as nat)
    }
}

/// The digits of `n`, or nothing for zero.
pub open spec fn leading_digits(n: nat) -> Seq<char> {
    if n == 0 {
        Seq::empty()
    } else {
        digits(n)
    }
}

proof fn lemma_leading_digits_step(n: nat)
    requires
        n > 0,
    ensures
        leading_digits(n) == leading_digits(n / 10).push(digit_char(n % 10)),
{
    if n < 10 {
        assert(leading_digits(n) =~= seq![digit_char(n)]);
        assert(Seq::<char>::empty().push(digit_char(n)) =~= seq![digit_char(n)]);
    }
}

/// The text of the decimal digit `d`.
fn digit_text(d: u32) -> (r: &'static str)
    requires
        d < 10,
    ensures
        r@ == seq![digit_char(d as nat)],
{
    proof {
        reveal_strlit("0");
        reveal_strlit("1");
        reveal_strlit("2");
        reveal_strlit("3");
        reveal_strlit("4");
        reveal_strlit("5");
        reveal_strlit("6");
        reveal_strlit("7");
        reveal_strlit("8");
        reveal_strlit("9");
    }
    match d {
        0 => "0",
        1 => "1",
        2 => "2",
        3 => "3",
        4 => "4",
        5 => "5",
        6 => "6",
        7 => "7",
        8 => "8",
        _ => "9",
    }
}

/// The decimal text of `n`.
fn decimal(n: i32) -> (r: String)
    ensures
        r@ == decimal_text(n as int),
{
    let mag: u32 = if n < 0 {
        (0i64 - n as i64) as u32
    } else {
        n as u32
    };
    let ghost total = mag as nat;
    let mut out = String::from_str(digit_text(mag % 10));
    let mut m: u32 = mag / 10;
    proof {
        if mag >= 10 {
            assert(leading_digits(m as nat) == digits(m as nat));
        }
        assert(digits(total) =~= leading_digits(m as nat) + out@);
    }
    while m > 0
        invariant
            digits(total) == leading_digits(m as nat) + out@,
        decreases m,
    {
        proof {
            lemma_leading_digits_step(m as nat);
        }
        let ghost before = out@;
        out = String::from_str(digit_text(m % 10)).concat(out.as_str());
        proof {
            assert(leading_digits(m as nat) + before =~= leading_digits((m / 10) as nat) + out@);
        }
        m = m / 10;
    }
    assert(leading_digits(0) + out@ =~= out@);
    if n < 0 {
        let r = String::from_str("-").concat(out.as_str());
        proof {
            reveal_strlit("-");
        }
        r
    } else {
        out
    }
}

/// Whether `flags` holds `flag`.
pub fn has_flag(flags: &Vec<DebugType>, flag: DebugType) -> (r: bool)
    ensures
        r == flags@.contains(flag),
{
    let mut i: usize = 0;
    while i < flags.len()
        invariant
            i <= flags@.len(),
            forall|j: int| 0 <= j < i ==> flags@[j] != flag,
        decreases flags@.len() - i,
    {
        if flags[i] == flag {
            return true;
        }
        i = i + 1;
    }
    false
}

/// Engine arguments that open the editor on the project.
pub open spec fn editor_args_spec(c: Config) -> Seq<Seq<char>> {
    seq!["--editor"@, "--path"@, c.project@]
}

/// The engine executable and the arguments that open the editor on the project.
pub fn editor_args(config: Config) -> (r: (String, Vec<String>))
    ensures
        r.0@ == config.godot_executable@,
        texts(r.1) == editor_args_spec(config),
{
    let mut args: Vec<String> = Vec::new();
    args.push("--editor".to_string());
    args.push("--path".to_string());
    args.push(config.project.clone());
    assert(texts(args) =~= editor_args_spec(config));
    (config.godot_executable, args)
}

/// What an optional editor process id adds to the run arguments.
pub open spec fn pid_args(editor_pid: Option<i32>) -> Seq<Seq<char>> {
    match editor_pid {
        Some(pid) => seq!["--editor-pid"@, decimal_text(pid as int)],
        None => seq![],
    }
}

/// What the debug overlays add to the run arguments: collisions first, then navigation.
pub open spec fn overlay_args(debug: Seq<DebugType>) -> Seq<Seq<char>> {
    (if debug.contains(DebugType::Collisions) {
        seq!["--debug-collisions"@]
    } else {
        seq![]
    }) + (if debug.contains(DebugType::Navigation) {
        seq!["--debug-navigation"@]
    } else {
        seq![]
    })
}

/// What an optional scene adds at the end of the run arguments.
pub open spec fn scene_args(scene: Option<String>) -> Seq<Seq<char>> {
    match scene {
        Some(s) => seq![s@],
        None => seq![],
    }
}

/// Engine arguments that run the game.
pub open spec fn run_args_spec(
    c: Config,
    editor_pid: Option<i32>,
    debug: Seq<DebugType>,
    scene: Option<String>,
) -> Seq<Seq<char>> {
    base_args(c) + pid_args(editor_pid) + overlay_args(debug) + scene_args(scene)
}

/// The engine executable and the arguments that run the game.
pub fn run_args(
    config: Config,
    editor_pid: Option<i32>,
    debug: &Vec<DebugType>,
    scene: Option<String>,
) -> (r: (String, Vec<String>))
    ensures
        r.0@ == config.godot_executable@,
        texts(r.1) == run_args_spec(config, editor_pid, debug@, scene),
{
    let ghost c = config;
    let (godot, mut args) = config.into_args();
    let ghost a0 = texts(args);
    if let Some(pid) = editor_pid {
        args.push("--editor-pid".to_string());
        args.push(decimal(pid));
    }
    assert(texts(args) =~= a0 + pid_args(editor_pid));
    let ghost a1 = texts(args);
    if has_flag(debug, DebugType::Collisions) {
        args.push("--debug-collisions".to_string());
    }
    if has_flag(debug, DebugType::Navigation) {
        args.push("--debug-navigation".to_string());
    }
    assert(texts(args) =~= a1 + overlay_args(debug@));
    let ghost a3 = texts(args);
    if let Some(s) = scene {
        args.push(s);
    }
    assert(texts(args) =~= a3 + scene_args(scene));
    assert(texts(args) =~= run_args_spec(c, editor_pid, debug@, scene));
    (godot, args)
}

/// The export flag for a build mode.
pub open spec fn export_flag(release: bool) -> Seq<char> {
    if release {
        "--export-release"@
    } else {
        "--export-debug"@
    }
}

/// Engine arguments that export the game with `preset` to `path`.
pub open spec fn export_args_spec(
    c: Config,
    release: bool,
    preset: Seq<char>,
    path: Seq<char>,
) -> Seq<Seq<char>> {
    base_args(c) + seq![export_flag(release), preset, path]
}

/// The engine executable and the arguments that export the game with `preset` to `path`.
pub fn export_args(config: Config, release: bool, preset: String, path: String) -> (r: (
    String,
    Vec<String>,
))
    ensures
        r.0@ == config.godot_executable@,
        texts(r.1) == export_args_spec(config, release, preset@, path@),
{
    let ghost c = config;
    let (godot, mut args) = config.into_args();
    if release {
        args.push("--export-release".to_string());
    } else {
        args.push("--export-debug".to_string());
    }
    args.push(preset);
    args.push(path);
    assert(texts(args) =~= export_args_spec(c, release, preset@, path@));
    (godot, args)
}

/// Engine arguments that execute the script at `script`.
pub open spec fn script_args_spec(c: Config, script: Seq<char>) -> Seq<Seq<char>> {
    base_args(c) + seq!["--script"@, script]
}

/// The engine executable and the arguments that execute the script at `script`.
pub fn script_args(config: Config, script: String) -> (r: (String, Vec<String>))
    ensures
        r.0@ == config.godot_executable@,
        texts(r.1) == script_args_spec(config, script@),
{
    let ghost c = config;
    let (godot, mut args) = config.into_args();
    args.push("--script".to_string());
    args.push(script);
    assert(texts(args) =~= script_args_spec(c, script@));
    (godot, args)
}

/// The debugger binary.
pub open spec fn debugger_text() -> Seq<char> {
    "lldb"@
}

/// Debugger arguments: the engine binary, a separator, then the engine's own arguments.
pub open spec fn debug_args_spec(c: Config, engine: Seq<char>) -> Seq<Seq<char>> {
    seq![engine, "--"@] + base_args(c)
}

/// The debugger and its arguments that launch the game with the engine binary at `engine`.
pub fn debug_args(config: Config, engine: String) -> (r: (String, Vec<String>))
    ensures
        r.0@ == debugger_text(),
        texts(r.1) == debug_args_spec(config, engine@),
{
    let ghost c = config;
    let (_godot, mut args) = config.into_args();
    args.insert(0, engine);
    args.insert(1, "--".to_string());
    assert(texts(args) =~= debug_args_spec(c, engine@));
    ("lldb".to_string(), args)
}

/// Arguments of the build tool that compiles the manifest's package.
pub open spec fn cargo_build_args_spec(manifest_path: Seq<char>, release: bool) -> Seq<Seq<char>> {
    seq!["build"@, "--manifest-path"@, manifest_path] + (if release {
        seq!["--release"@]
    } else {
        seq![]
    })
}

/// The build tool.
pub open spec fn cargo_text() -> Seq<char> {
    "cargo"@
}

/// The build tool and its arguments that compile the package of `manifest_path`.
pub fn cargo_build(manifest_path: &String, release: bool) -> (r: (String, Vec<String>))
    ensures
        r.0@ == cargo_text(),
        texts(r.1) == cargo_build_args_spec(manifest_path@, release),
{
    let mut args: Vec<String> = Vec::new();
    args.push("build".to_string());
    args.push("--manifest-path".to_string());
    args.push(manifest_path.clone());
    if release {
        args.push("--release".to_string());
    }
    assert(texts(args) =~= cargo_build_args_spec(manifest_path@, release));
    ("cargo".to_string(), args)
}

} // verus!

verus! {

/// `flag` is nowhere in `s`.
pub open spec fn absent(s: Seq<Seq<char>>, flag: Seq<char>) -> bool {
    forall|j: int| 0 <= j < s.len() ==> s[j] != flag
}

/// `flag` stands in `s` once, at `i`, and `value` follows it.
pub open spec fn once_at(s: Seq<Seq<char>>, flag: Seq<char>, i: int, value: Seq<char>) -> bool {
    &&& 0 <= i && i + 1 < s.len()
    &&& s[i] == flag
    &&& s[i + 1] == value
    &&& forall|j: int| 0 <= j < s.len() && j != i ==> s[j] != flag
}

/// The flags that engine arguments carry.
pub open spec fn engine_flags() -> Seq<Seq<char>> {
    seq![
        "--path"@,
        "--editor"@,
        "--remote-debug"@,
        "--editor-pid"@,
        "--debug-collisions"@,
        "--debug-navigation"@,
        "--export-debug"@,
        "--export-release"@,
        "--script"@,
        "--"@,
    ]
}

/// `t` is none of the engine's flags: a value of the user's, such as a path or a name.
pub open spec fn plain(t: Seq<char>) -> bool {
    !engine_flags().contains(t)
}

/// The values of a configuration are none of the engine's flags.
pub open spec fn plain_config(c: Config) -> bool {
    &&& plain(c.project@)
    &&& c.remote_debug matches Some(a) ==> plain(a@)
}

proof fn lemma_digits_start(n: nat)
    ensures
        digits(n).len() >= 1,
        digits(n)[0] != '-',
    decreases n,
{
    if n >= 10 {
        lemma_digits_start(n / 10);
    }
}

proof fn lemma_flags_distinct()
    ensures
        forall|i: int, j: int|
            0 <= i < engine_flags().len() && 0 <= j < engine_flags().len() && i != j ==> #[trigger] engine_flags()[i]
                != #[trigger] engine_flags()[j],
        engine_flags()[0] == "--path"@,
        engine_flags()[2] == "--remote-debug"@,
        engine_flags()[6] == "--export-debug"@,
        engine_flags()[4] == "--debug-collisions"@,
        engine_flags()[5] == "--debug-navigation"@,
        engine_flags()[7] == "--export-release"@,
{
    reveal_strlit("--path");
    reveal_strlit("--editor");
    reveal_strlit("--remote-debug");
    reveal_strlit("--editor-pid");
    reveal_strlit("--debug-collisions");
    reveal_strlit("--debug-navigation");
    reveal_strlit("--export-debug");
    reveal_strlit("--export-release");
    reveal_strlit("--script");
    reveal_strlit("--");
    let f = engine_flags();
    assert forall|i: int, j: int| 0 <= i < f.len() && 0 <= j < f.len() && i != j implies #[trigger] f[i] != #[trigger] f[j] by {
        if f[i].len() == f[j].len() {
            if f[i].len() == 8 {
                assert(f[i][2] != f[j][2]);
            } else if f[i].len() == 14 {
                assert(f[i][3] != f[j][3]);
            } else if f[i].len() == 18 {
                assert(f[i][8] != f[j][8]);
            }
        }
    }
}

proof fn lemma_decimal_plain(n: int)
    ensures
        plain(decimal_text(n)),
{
    reveal_strlit("--path");
    reveal_strlit("--editor");
    reveal_strlit("--remote-debug");
    reveal_strlit("--editor-pid");
    reveal_strlit("--debug-collisions");
    reveal_strlit("--debug-navigation");
    reveal_strlit("--export-debug");
    reveal_strlit("--export-release");
    reveal_strlit("--script");
    reveal_strlit("--");
    let d = decimal_text(n);
    let f = engine_flags();
    if n < 0 {
        lemma_digits_start((-n) as nat);
        assert(d[1] != '-');
    } else {
        lemma_digits_start(n as nat);
        assert(d[0] != '-');
    }
    assert forall|i: int| 0 <= i < f.len() implies f[i] != d by {
        assert(f[i][0] == '-' && f[i][1] == '-');
    }
}

/// Every engine argument vector starts with `--path` and the project, but
/// that of the editor, which starts with `--editor`, `--path` and the project;
/// under the debugger the engine's arguments follow the engine and `--`.
pub proof fn engine_args_start_with_project(
    c: Config,
    editor_pid: Option<i32>,
    debug: Seq<DebugType>,
    scene: Option<String>,
    release: bool,
    preset: Seq<char>,
    path: Seq<char>,
    script: Seq<char>,
    engine: Seq<char>,
)
    ensures
        run_args_spec(c, editor_pid, debug, scene).take(2) == seq!["--path"@, c.project@],
        export_args_spec(c, release, preset, path).take(2) == seq!["--path"@, c.project@],
        script_args_spec(c, script).take(2) == seq!["--path"@, c.project@],
        debug_args_spec(c, engine).subrange(2, 4) == seq!["--path"@, c.project@],
        editor_args_spec(c).take(3) == seq!["--editor"@, "--path"@, c.project@],
{
    assert(run_args_spec(c, editor_pid, debug, scene).take(2) =~= seq!["--path"@, c.project@]);
    assert(export_args_spec(c, release, preset, path).take(2) =~= seq!["--path"@, c.project@]);
    assert(script_args_spec(c, script).take(2) =~= seq!["--path"@, c.project@]);
    assert(debug_args_spec(c, engine).subrange(2, 4) =~= seq!["--path"@, c.project@]);
    assert(editor_args_spec(c).take(3) =~= seq!["--editor"@, "--path"@, c.project@]);
}

/// The editor's arguments carry no remote debug, debug overlay or export flag.
pub proof fn editor_args_carry_no_other_flag(c: Config)
    requires
        plain(c.project@),
    ensures
        forall|i: int| 2 <= i < engine_flags().len() ==> absent(editor_args_spec(c), #[trigger] engine_flags()[i]),
{
    lemma_flags_distinct();
    let s = editor_args_spec(c);
    let f = engine_flags();
    assert forall|i: int, j: int| 2 <= i < f.len() && 0 <= j < s.len() implies #[trigger] s[j] != #[trigger] f[i] by {
        if j == 2 {
            assert(f.contains(f[i]));
        } else if j == 0 {
            assert(s[j] == f[1]);
        } else {
            assert(s[j] == f[0]);
        }
    }
}

proof fn lemma_concat_absent(a: Seq<Seq<char>>, b: Seq<Seq<char>>, f: Seq<char>)
    requires
        absent(a, f),
        absent(b, f),
    ensures
        absent(a + b, f),
{
    assert forall|j: int| 0 <= j < (a + b).len() implies (a + b)[j] != f by {
        if j >= a.len() {
            assert((a + b)[j] == b[j - a.len()]);
        }
    }
}

proof fn lemma_concat_once(a: Seq<Seq<char>>, b: Seq<Seq<char>>, f: Seq<char>, i: int, v: Seq<char>)
    requires
        once_at(a, f, i, v),
        absent(b, f),
    ensures
        once_at(a + b, f, i, v),
{
    assert forall|j: int| 0 <= j < (a + b).len() && j != i implies (a + b)[j] != f by {
        if j >= a.len() {
            assert((a + b)[j] == b[j - a.len()]);
        }
    }
}

proof fn lemma_prefix_once(p: Seq<Seq<char>>, a: Seq<Seq<char>>, f: Seq<char>, i: int, v: Seq<char>)
    requires
        absent(p, f),
        once_at(a, f, i, v),
    ensures
        once_at(p + a, f, i + p.len(), v),
{
    assert forall|j: int| 0 <= j < (p + a).len() && j != i + p.len() implies (p + a)[j] != f by {
        if j >= p.len() {
            assert((p + a)[j] == a[j - p.len()]);
        }
    }
}

/// `f` is a flag and `t` is plain, so the two differ.
proof fn lemma_plain_differs(t: Seq<char>, k: int)
    requires
        plain(t),
        0 <= k < engine_flags().len(),
    ensures
        engine_flags()[k] != t,
{
    assert(engine_flags().contains(engine_flags()[k]));
}

/// A flag is absent from the small sequences that the argument vectors are made of.
proof fn lemma_parts_absent(
    c: Config,
    k: int,
    editor_pid: Option<i32>,
    debug: Seq<DebugType>,
    scene: Option<String>,
    release: bool,
    preset: Seq<char>,
    path: Seq<char>,
    script: Seq<char>,
    engine: Seq<char>,
)
    requires
        k == 2 || 4 <= k <= 7,
        plain_config(c),
        plain(preset),
        plain(path),
        plain(script),
        plain(engine),
        scene matches Some(x) ==> plain(x@),
    ensures
        absent(seq!["--path"@, c.project@], engine_flags()[k]),
        absent(pid_args(editor_pid), engine_flags()[k]),
        (k == 4 ==> !debug.contains(DebugType::Collisions)) && (k == 5 ==> !debug.contains(
            DebugType::Navigation,
        )) ==> absent(overlay_args(debug), engine_flags()[k]),
        absent(scene_args(scene), engine_flags()[k]),
        absent(seq!["--script"@, script], engine_flags()[k]),
        absent(seq![engine, "--"@], engine_flags()[k]),
        absent(seq![preset, path], engine_flags()[k]),
        absent(editor_args_spec(c), engine_flags()[k]),
{
    lemma_flags_distinct();
    let f = engine_flags();
    lemma_plain_differs(c.project@, k);
    lemma_plain_differs(preset, k);
    lemma_plain_differs(path, k);
    lemma_plain_differs(script, k);
    lemma_plain_differs(engine, k);
    if let Some(pid) = editor_pid {
        lemma_decimal_plain(pid as int);
        lemma_plain_differs(decimal_text(pid as int), k);
        assert(f[3] != f[k]);
    }
    if let Some(x) = scene {
        lemma_plain_differs(x@, k);
    }
    assert(f[0] != f[k] && f[1] != f[k] && f[8] != f[k] && f[9] != f[k]);
    let o = overlay_args(debug);
    if (k == 4 ==> !debug.contains(DebugType::Collisions)) && (k == 5 ==> !debug.contains(
        DebugType::Navigation,
    )) {
        assert forall|j: int| 0 <= j < o.len() implies o[j] != f[k] by {
            if debug.contains(DebugType::Collisions) && j == 0 {
                assert(o[j] == f[4]);
            } else {
                assert(o[j] == f[5]);
            }
        }
    }
}

/// Without a remote debug address no engine argument vector carries
/// `--remote-debug`; with one, each vector but the editor's carries it once,
/// right after the project, and the address follows it.
pub proof fn remote_debug_flag_once(
    c: Config,
    editor_pid: Option<i32>,
    debug: Seq<DebugType>,
    scene: Option<String>,
    release: bool,
    preset: Seq<char>,
    path: Seq<char>,
    script: Seq<char>,
    engine: Seq<char>,
)
    requires
        plain_config(c),
        plain(preset),
        plain(path),
        plain(script),
        plain(engine),
        scene matches Some(x) ==> plain(x@),
    ensures
        absent(editor_args_spec(c), "--remote-debug"@),
        c.remote_debug is None ==> {
            &&& base_args(c).len() == 2
            &&& absent(base_args(c), "--remote-debug"@)
            &&& absent(run_args_spec(c, editor_pid, debug, scene), "--remote-debug"@)
            &&& absent(export_args_spec(c, release, preset, path), "--remote-debug"@)
            &&& absent(script_args_spec(c, script), "--remote-debug"@)
            &&& absent(debug_args_spec(c, engine), "--remote-debug"@)
        },
        c.remote_debug matches Some(a) ==> {
            &&& once_at(base_args(c), "--remote-debug"@, 2, a@)
            &&& once_at(run_args_spec(c, editor_pid, debug, scene), "--remote-debug"@, 2, a@)
            &&& once_at(export_args_spec(c, release, preset, path), "--remote-debug"@, 2, a@)
            &&& once_at(script_args_spec(c, script), "--remote-debug"@, 2, a@)
            &&& once_at(debug_args_spec(c, engine), "--remote-debug"@, 4, a@)
        },
{
    lemma_flags_distinct();
    let f = engine_flags();
    let rd = f[2];
    lemma_parts_absent(c, 2, editor_pid, debug, scene, release, preset, path, script, engine);
    let head = seq!["--path"@, c.project@];
    let b = base_args(c);
    let ef = seq![export_flag(release)];
    assert(absent(ef, rd)) by {
        assert(f[6] != rd && f[7] != rd);
    }
    let et = ef + seq![preset, path];
    lemma_concat_absent(ef, seq![preset, path], rd);
    assert(export_args_spec(c, release, preset, path) =~= b + et);
    let st = seq!["--script"@, script];
    let rt = pid_args(editor_pid) + overlay_args(debug) + scene_args(scene);
    lemma_concat_absent(pid_args(editor_pid), overlay_args(debug), rd);
    lemma_concat_absent(pid_args(editor_pid) + overlay_args(debug), scene_args(scene), rd);
    assert(run_args_spec(c, editor_pid, debug, scene) =~= b + rt);
    let dp = seq![engine, "--"@];
    match c.remote_debug {
        None => {
            assert(b =~= head);
            assert(absent(b, rd));
            lemma_concat_absent(b, rt, rd);
            lemma_concat_absent(b, et, rd);
            lemma_concat_absent(b, st, rd);
            lemma_concat_absent(dp, b, rd);
        },
        Some(a) => {
            lemma_plain_differs(a@, 2);
            assert(once_at(b, rd, 2, a@)) by {
                assert(b =~= head + seq![rd, a@]);
            }
            lemma_concat_once(b, rt, rd, 2, a@);
            lemma_concat_once(b, et, rd, 2, a@);
            lemma_concat_once(b, st, rd, 2, a@);
            lemma_prefix_once(dp, b, rd, 2, a@);
        },
    }
}

/// An export's arguments carry exactly one of `--export-debug` and
/// `--export-release`, the one of its build mode, and end with the preset
/// and the output path, in that order.
pub proof fn export_flag_exactly_one(c: Config, release: bool, preset: Seq<char>, path: Seq<char>)
    requires
        plain_config(c),
        plain(preset),
        plain(path),
    ensures
        ({
            let s = export_args_spec(c, release, preset, path);
            &&& s[s.len() - 3] == export_flag(release)
            &&& forall|j: int|
                0 <= j < s.len() && j != s.len() - 3 ==> s[j] != "--export-debug"@ && s[j] != "--export-release"@
            &&& s[s.len() - 2] == preset
            &&& s[s.len() - 1] == path
        }),
        export_flag(release) == "--export-debug"@ || export_flag(release) == "--export-release"@,
        export_flag(release) == "--export-release"@ <==> release,
{
    lemma_flags_distinct();
    let f = engine_flags();
    let s = export_args_spec(c, release, preset, path);
    let b = base_args(c);
    lemma_parts_absent(c, 6, None, seq![], None, release, preset, path, preset, preset);
    lemma_parts_absent(c, 7, None, seq![], None, release, preset, path, preset, preset);
    assert forall|j: int| 0 <= j < b.len() implies b[j] != f[6] && b[j] != f[7] by {
        if j >= 2 {
            let a = c.remote_debug->0;
            lemma_plain_differs(a@, 6);
            lemma_plain_differs(a@, 7);
            assert(b[j] == f[2] || b[j] == a@);
        }
    }
    assert(s =~= b + seq![export_flag(release), preset, path]);
    assert forall|j: int| 0 <= j < s.len() && j != s.len() - 3 implies s[j] != f[6] && s[j] != f[7] by {
        if j < b.len() {
            assert(s[j] == b[j]);
        } else {
            assert(j == s.len() - 2 || j == s.len() - 1);
        }
    }
}

/// A run's arguments carry `--debug-collisions` only when collisions are
/// listed, and `--debug-navigation` only when navigation is; with navigation
/// listed and a scene given, they end with that flag and the scene.
pub proof fn overlay_flags_follow_the_list(
    c: Config,
    editor_pid: Option<i32>,
    debug: Seq<DebugType>,
    scene: Option<String>,
)
    requires
        plain_config(c),
        scene matches Some(x) ==> plain(x@),
    ensures
        !debug.contains(DebugType::Collisions) ==> absent(
            run_args_spec(c, editor_pid, debug, scene),
            "--debug-collisions"@,
        ),
        !debug.contains(DebugType::Navigation) ==> absent(
            run_args_spec(c, editor_pid, debug, scene),
            "--debug-navigation"@,
        ),
        debug.contains(DebugType::Navigation) && scene is Some ==> ({
            let s = run_args_spec(c, editor_pid, debug, scene);
            &&& s[s.len() - 2] == "--debug-navigation"@
            &&& s[s.len() - 1] == scene->0@
        }),
{
    lemma_flags_distinct();
    let f = engine_flags();
    let p = c.project@;
    let b = base_args(c);
    let pid = pid_args(editor_pid);
    let o = overlay_args(debug);
    let sc = scene_args(scene);
    let s = run_args_spec(c, editor_pid, debug, scene);
    assert(s =~= b + pid + o + sc);
    assert forall|k: int| 4 <= k <= 5 && (k == 4 ==> !debug.contains(DebugType::Collisions)) && (k == 5
        ==> !debug.contains(DebugType::Navigation)) implies absent(s, f[k]) by {
        lemma_parts_absent(c, k, editor_pid, debug, scene, false, p, p, p, p);
        assert(absent(b, f[k])) by {
            assert forall|j: int| 0 <= j < b.len() implies b[j] != f[k] by {
                if j >= 2 {
                    let a = c.remote_debug->0;
                    lemma_plain_differs(a@, k);
                    assert(b[j] == f[2] || b[j] == a@);
                } else if j == 1 {
                    lemma_plain_differs(p, k);
                }
            }
        }
        lemma_concat_absent(b, pid, f[k]);
        lemma_concat_absent(b + pid, o, f[k]);
        lemma_concat_absent(b + pid + o, sc, f[k]);
    }
    assert(f[4] == "--debug-collisions"@ && f[5] == "--debug-navigation"@);
    if debug.contains(DebugType::Navigation) && scene is Some {
        assert(o[o.len() - 1] == f[5]);
    }
}

} // verus!
