//! The pipeline itself: the manifest fold, the link-planner rewriting
//! rules, and the orchestrating state machine that tells a thin host
//! which external tool to run next and folds each tool's outcome back
//! into the run.

use vstd::prelude::*;
use vstd::seq_lib::*;
use crate::context::FileContext;
use crate::errors::ErrorKind;
use crate::macho::{locate_bundle_section, locate_spec, OFileKind};
use crate::plan::{
    default_sdk_for, default_toolchain, normalize_framework_spec, runtime_lib_for, sdk_outcome,
    supported_platform, tool_outcome, ReCompilerInfo,
};
use crate::strutil::{leaf_of, leaf_string, str_eq};
use crate::xmlio::{new_manifest_reader, next_markup_event, MarkupEvent};

verus! {

/// Which manifest element the fold is inside, if any of interest.
#[derive(Clone, Copy, Debug)]
pub enum ElemKind {
    Outside,
    InPlatform,
    InOption,
    InLib,
    InName,
    InCmd,
}

/// The fold's cursor: the element context and whether this element
/// occurrence has already contributed its character data.  Only the
/// first character-data event per occurrence is authoritative.
pub struct ParseState {
    pub ctx: ElemKind,
    pub seen: bool,
}

/// The manifest elements the fold reads; anything else is ignored for
/// forward compatibility.
pub open spec fn classify(name: Seq<char>) -> ElemKind {
    if name == "platform"@ {
        ElemKind::InPlatform
    } else if name == "option"@ {
        ElemKind::InOption
    } else if name == "lib"@ {
        ElemKind::InLib
    } else if name == "name"@ {
        ElemKind::InName
    } else if name == "cmd"@ {
        ElemKind::InCmd
    } else {
        ElemKind::Outside
    }
}

fn classify_exec(name: &str) -> (k: ElemKind)
    ensures
        k == classify(name@),
{
    if str_eq(name, "platform") {
        ElemKind::InPlatform
    } else if str_eq(name, "option") {
        ElemKind::InOption
    } else if str_eq(name, "lib") {
        ElemKind::InLib
    } else if str_eq(name, "name") {
        ElemKind::InName
    } else if str_eq(name, "cmd") {
        ElemKind::InCmd
    } else {
        ElemKind::Outside
    }
}

/// What a `platform` payload does to the plan: sets the target, all
/// else untouched.
pub open spec fn fold_platform(a: ReCompilerInfo, b: ReCompilerInfo, d: String) -> bool {
    &&& b.platform == d
    &&& b.link_options == a.link_options
    &&& b.link_framework == a.link_framework
    &&& b.file_compile == a.file_compile
}

/// What an `option` payload does: appended verbatim.
pub open spec fn fold_option(a: ReCompilerInfo, b: ReCompilerInfo, d: String) -> bool {
    &&& b.link_options@ == a.link_options@.push(d)
    &&& b.platform == a.platform
    &&& b.link_framework == a.link_framework
    &&& b.file_compile == a.file_compile
}

/// What a `lib` payload does: normalized, then appended or dropped.
pub open spec fn fold_lib(a: ReCompilerInfo, b: ReCompilerInfo, d: String) -> bool {
    &&& (match normalize_framework_spec(d@) {
        Some(leaf) => b.link_framework.deep_view() == a.link_framework.deep_view().push(leaf),
        None => b.link_framework == a.link_framework,
    })
    &&& b.platform == a.platform
    &&& b.link_options == a.link_options
    &&& b.file_compile == a.file_compile
}

/// What a `name` payload does: opens a new module vector.
pub open spec fn fold_name(a: ReCompilerInfo, b: ReCompilerInfo, d: String) -> bool {
    &&& b.file_compile.deep_view() == a.file_compile.deep_view().push(seq![d@])
    &&& b.platform == a.platform
    &&& b.link_options == a.link_options
    &&& b.link_framework == a.link_framework
}

/// What a `cmd` payload does: joins the most recent module, or is
/// dropped when no module has been named yet.
pub open spec fn fold_cmd(a: ReCompilerInfo, b: ReCompilerInfo, d: String) -> bool {
    if a.file_compile@.len() == 0 {
        b == a
    } else {
        &&& b.file_compile.deep_view() == a.file_compile.deep_view().update(
            a.file_compile@.len() - 1,
            a.file_compile.deep_view().last().push(d@),
        )
        &&& b.platform == a.platform
        &&& b.link_options == a.link_options
        &&& b.link_framework == a.link_framework
    }
}

/// Folds one markup event into the plan: `platform` sets the target,
/// `option` appends a linker flag, `lib` appends a normalized
/// framework, `name` opens a new module, `cmd` appends to the current
/// module.  A `cmd` arriving before any `name` has no module to join
/// and is dropped.
pub fn apply_event(info: &mut ReCompilerInfo, st: &mut ParseState, ev: MarkupEvent)
    ensures
        final(info).lib_clang == old(info).lib_clang,
        final(info).tool_chain == old(info).tool_chain,
        final(info).sdk_path == old(info).sdk_path,
        final(info).obj_file == old(info).obj_file,
        old(info).modules_wf() ==> final(info).modules_wf(),
        old(info).frameworks_clean() ==> final(info).frameworks_clean(),
        match ev {
            MarkupEvent::StartElement(n) => *final(info) == *old(info) && final(st).ctx
                == classify(n@) && final(st).seen == false,
            MarkupEvent::EndElement => *final(info) == *old(info) && final(st).ctx
                == ElemKind::Outside && final(st).seen == false,
            MarkupEvent::Characters(d) => if old(st).seen {
                *final(info) == *old(info) && *final(st) == *old(st)
            } else {
                (final(st).ctx == old(st).ctx) && (match old(st).ctx {
                    ElemKind::Outside => *final(info) == *old(info) && *final(st) == *old(st),
                    ElemKind::InPlatform => fold_platform(*old(info), *final(info), d)
                        && final(st).seen,
                    ElemKind::InOption => fold_option(*old(info), *final(info), d)
                        && final(st).seen,
                    ElemKind::InLib => fold_lib(*old(info), *final(info), d) && final(st).seen,
                    ElemKind::InName => fold_name(*old(info), *final(info), d) && final(st).seen,
                    ElemKind::InCmd => fold_cmd(*old(info), *final(info), d) && final(st).seen,
                })
            },
            MarkupEvent::EndDocument => *final(info) == *old(info) && *final(st) == *old(st),
            MarkupEvent::Other => *final(info) == *old(info) && *final(st) == *old(st),
            MarkupEvent::ParseError => *final(info) == *old(info) && *final(st) == *old(st),
        },
{
    match ev {
        MarkupEvent::StartElement(n) => {
            st.ctx = classify_exec(n.as_str());
            st.seen = false;
        },
        MarkupEvent::EndElement => {
            st.ctx = ElemKind::Outside;
            st.seen = false;
        },
        MarkupEvent::Characters(d) => {
            if st.seen {
                return ;
            }
            match st.ctx {
                ElemKind::Outside => {},
                ElemKind::InPlatform => {
                    info.set_platform(d);
                    st.seen = true;
                },
                ElemKind::InOption => {
                    info.push_option(d);
                    st.seen = true;
                },
                ElemKind::InLib => {
                    info.push_framework(&d);
                    st.seen = true;
                },
                ElemKind::InName => {
                    info.add_new_file_vec(d);
                    st.seen = true;
                },
                ElemKind::InCmd => {
                    if info.file_compile.len() > 0 {
                        info.add_file_cmd(d);
                    }
                    st.seen = true;
                },
            }
        },
        MarkupEvent::EndDocument => {},
        MarkupEvent::Other => {},
        MarkupEvent::ParseError => {},
    }
}

/// Pulls the whole manifest stream out of `bytes` and folds it into
/// the plan.  Whatever events come, the fold only ever appends
/// normalized frameworks and name-led module vectors, so the plan's
/// well-formedness survives every outcome; malformed markup is the one
/// fatal condition.
pub fn parse_manifest_events(info: &mut ReCompilerInfo, bytes: &[u8]) -> (r: Result<
    (),
    ErrorKind,
>)
    ensures
        final(info).lib_clang == old(info).lib_clang,
        final(info).tool_chain == old(info).tool_chain,
        final(info).sdk_path == old(info).sdk_path,
        final(info).obj_file == old(info).obj_file,
        old(info).modules_wf() ==> final(info).modules_wf(),
        old(info).frameworks_clean() ==> final(info).frameworks_clean(),
        r matches Err(e) ==> e == ErrorKind::ManifestParseFailed,
{
    let mut rd = new_manifest_reader(bytes);
    let mut st = ParseState { ctx: ElemKind::Outside, seen: false };
    // Each markup event consumes input, so a document's stream never
    // holds more events than bytes plus the two document delimiters; a
    // stream that outruns this is treated as malformed.
    let mut fuel: usize = if bytes.len() < usize::MAX - 8 {
        bytes.len() + 8
    } else {
        usize::MAX
    };
    loop
        invariant
            info.lib_clang == old(info).lib_clang,
            info.tool_chain == old(info).tool_chain,
            info.sdk_path == old(info).sdk_path,
            info.obj_file == old(info).obj_file,
            old(info).modules_wf() ==> info.modules_wf(),
            old(info).frameworks_clean() ==> info.frameworks_clean(),
        decreases fuel,
    {
        if fuel == 0 {
            return Err(ErrorKind::ManifestParseFailed);
        }
        fuel = fuel - 1;
        let ev = next_markup_event(&mut rd);
        match ev {
            MarkupEvent::EndDocument => {
                return Ok(());
            },
            MarkupEvent::ParseError => {
                return Err(ErrorKind::ManifestParseFailed);
            },
            _ => {
                apply_event(info, &mut st, ev);
            },
        }
    }
}

/// The literal flag whose following option names the output
/// executable's build-time path.
pub open spec fn exec_path_flag() -> Seq<char> {
    "-executable_path"@
}

/// The rewritten option list and the carry after the first `n`
/// options: an option right after the executable-path flag is reduced
/// to its leaf and prefixed with the local-directory marker; a
/// rewritten option never triggers the flag itself.
pub open spec fn rewrite_pref(opts: Seq<Seq<char>>, n: int) -> (Seq<Seq<char>>, bool)
    decreases n,
{
    if n <= 0 {
        (Seq::<Seq<char>>::empty(), false)
    } else {
        let prev = rewrite_pref(opts, n - 1);
        if prev.1 {
            (prev.0.push("./"@ + leaf_of(opts[n - 1])), false)
        } else {
            (prev.0.push(opts[n - 1]), opts[n - 1] == exec_path_flag())
        }
    }
}

/// The whole rewritten option list.
pub open spec fn rewrite_spec(opts: Seq<Seq<char>>) -> Seq<Seq<char>> {
    rewrite_pref(opts, opts.len() as int).0
}

/// Rewrites recovered link options while copying them: the option
/// after each occurrence of the executable-path flag becomes
/// `"./" + leaf`, everything else is kept verbatim.
pub fn rewrite_link_options(opts: &Vec<String>) -> (r: Vec<String>)
    ensures
        r.deep_view() == rewrite_spec(opts.deep_view()),
{
    let n = opts.len();
    let mut out: Vec<String> = Vec::new();
    let mut pending: bool = false;
    let mut i: usize = 0;
    while i < n
        invariant
            n == opts@.len(),
            i <= n,
            out.deep_view() == rewrite_pref(opts.deep_view(), i as int).0,
            pending == rewrite_pref(opts.deep_view(), i as int).1,
        decreases n - i,
    {
        let opt = &opts[i];
        if pending {
            let leaf = leaf_string(opt.as_str());
            let mut rewritten = String::from_str("./");
            rewritten.append(leaf.as_str());
            out.push(rewritten);
            pending = false;
        } else {
            out.push(opt.clone());
            pending = str_eq(opt.as_str(), "-executable_path");
        }
        i = i + 1;
        proof {
            assert(out.deep_view() =~= rewrite_pref(opts.deep_view(), i as int).0);
        }
    }
    out
}

proof fn lemma_rewrite_no_flag_pref(opts: Seq<Seq<char>>, n: int)
    requires
        0 <= n <= opts.len(),
        forall|i: int| 0 <= i < opts.len() ==> opts[i] != exec_path_flag(),
    ensures
        rewrite_pref(opts, n) == (opts.subrange(0, n), false),
    decreases n,
{
    if n == 0 {
        assert(opts.subrange(0, 0) =~= Seq::<Seq<char>>::empty());
    } else {
        lemma_rewrite_no_flag_pref(opts, n - 1);
        assert(opts.subrange(0, n - 1).push(opts[n - 1]) =~= opts.subrange(0, n));
    }
}

/// When no option equals the executable-path flag, rewriting leaves
/// the sequence unchanged.
pub proof fn lemma_rewrite_no_flag(opts: Seq<Seq<char>>)
    requires
        forall|i: int| 0 <= i < opts.len() ==> opts[i] != exec_path_flag(),
    ensures
        rewrite_spec(opts) == opts,
{
    lemma_rewrite_no_flag_pref(opts, opts.len() as int);
    assert(opts.subrange(0, opts.len() as int) =~= opts);
}

/// What the runtime-library search's captured output yields: `None`
/// stands for output that was not text; a single trailing newline is
/// stripped; an empty result means the library was not found.
pub open spec fn find_output_path(out: Option<Seq<char>>) -> Result<Seq<char>, ErrorKind> {
    match out {
        None => Err(ErrorKind::RuntimeLibraryNotFound),
        Some(s) => {
            let t = if s.len() > 0 && s.last() == '\n' {
                s.drop_last()
            } else {
                s
            };
            if t.len() == 0 {
                Err(ErrorKind::RuntimeLibraryNotFound)
            } else {
                Ok(t)
            }
        },
    }
}

/// Extracts the runtime-support archive's path from the search tool's
/// captured standard output.
pub fn parse_find_output(out: &Option<String>) -> (r: Result<String, ErrorKind>)
    ensures
        match find_output_path(out.deep_view()) {
            Ok(p) => r matches Ok(s) && s@ == p,
            Err(e) => r matches Err(e2) && e2 == e,
        },
{
    match out {
        None => Err(ErrorKind::RuntimeLibraryNotFound),
        Some(s) => {
            let n = s.as_str().unicode_len();
            if n == 0 {
                return Err(ErrorKind::RuntimeLibraryNotFound);
            }
            if s.as_str().get_char(n - 1) == '\n' {
                if n == 1 {
                    proof {
                        assert(s@.drop_last() =~= Seq::<char>::empty());
                    }
                    return Err(ErrorKind::RuntimeLibraryNotFound);
                }
                let trimmed = s.as_str().substring_char(0, n - 1);
                proof {
                    assert(s@.drop_last() =~= s@.subrange(0, n - 1));
                }
                Ok(String::from_str(trimmed))
            } else {
                Ok(s.clone())
            }
        },
    }
}

/// The archive tool's table-of-contents dump arguments.
pub open spec fn dump_args_spec(xml: Seq<char>, xar: Seq<char>) -> Seq<Seq<char>> {
    seq!["--dump-toc="@ + xml, "-f"@, xar]
}

/// The archive tool's extract-contents arguments.
pub open spec fn extract_args_spec(xar: Seq<char>) -> Seq<Seq<char>> {
    seq!["-xf"@, xar]
}

/// One module's code-generation arguments: the recovered vector after
/// the front-end flag.
pub open spec fn compile_args_spec(module_args: Seq<Seq<char>>) -> Seq<Seq<char>> {
    seq!["-cc1"@] + module_args
}

/// The runtime-library search arguments.
pub open spec fn find_args_spec(tool: Seq<char>, lib: Seq<char>) -> Seq<Seq<char>> {
    seq![tool, "-name"@, lib]
}

/// One `-framework <name>` pair per kept framework, in manifest order.
pub open spec fn framework_pairs(fs: Seq<Seq<char>>) -> Seq<Seq<char>>
    decreases fs.len(),
{
    if fs.len() == 0 {
        Seq::<Seq<char>>::empty()
    } else {
        framework_pairs(fs.drop_last()) + seq!["-framework"@, fs.last()]
    }
}

/// The full linker argument vector: rewritten options, the syslibroot
/// pair, the framework pairs, the system library plus the runtime
/// archive's path, then every object file in module order.
pub open spec fn link_args_spec(info: ReCompilerInfo, lib_path: Seq<char>) -> Seq<Seq<char>> {
    rewrite_spec(info.link_options.deep_view()) + seq!["-syslibroot"@, info.sdk_path@]
        + framework_pairs(info.link_framework.deep_view()) + seq!["-lSystem"@, lib_path]
        + info.obj_file.deep_view()
}

/// Where one input's run stands: which external outcome it waits for,
/// or how it ended.
#[derive(Clone, Copy, Debug)]
pub enum Stage {
    /// Nothing handled yet.
    Start,
    /// The bundle bytes are out; waiting for the table-of-contents dump.
    AwaitDump,
    /// Waiting for the dumped manifest's bytes.
    AwaitManifest,
    /// Waiting for the SDK path probe.
    AwaitSdkProbe,
    /// Waiting for the toolchain path probe.
    AwaitToolProbe,
    /// Waiting for the archive extraction.
    AwaitExtract,
    /// Waiting for module `index`'s code generation.
    AwaitCompile { index: usize },
    /// Waiting for the runtime-library search.
    AwaitFind,
    /// Waiting for the final link.
    AwaitLink,
    /// The binary embeds no bundle: a successful no-op.
    DoneNoBundle,
    /// The link succeeded.
    DoneOk,
    /// A fatal condition ended the run.
    Failed,
}

/// What the host reports back: a subprocess exit, the manifest bytes,
/// a path probe, or a captured search output.
pub enum PipeEvent {
    ExitStatus { ok: bool },
    ManifestBytes { bytes: Vec<u8> },
    ProbeResult { exists: bool },
    CapturedOutput { ok: bool, stdout: Option<String> },
}

/// What the host must do next.  Every program/argument vector is
/// synthesized and pinned down here; the host only executes.
pub enum PipeAction {
    /// Write `payload` to the archive file, then run the dump.
    WriteBundleAndDump {
        payload: Vec<u8>,
        archive_file: String,
        manifest_file: String,
        program: String,
        args: Vec<String>,
    },
    /// Read the dumped manifest file and hand its bytes back.
    ReadManifest { manifest_file: String },
    /// Report whether the path exists on disk.
    ProbePath { path: String },
    /// Run the program and hand back its exit status.
    Run { program: String, args: Vec<String> },
    /// Run the program and hand back its exit status and output.
    RunCaptured { program: String, args: Vec<String> },
}

/// One input binary's pipeline run.
pub struct MachOProcess {
    pub re_info: ReCompilerInfo,
    pub xml_file: String,
    pub xar_file: String,
    pub sdk_override: Option<String>,
    pub tool_override: Option<String>,
    pub stage: Stage,
}

impl MachOProcess {
    /// What every reachable state of a run satisfies: the plan is
    /// well formed, frameworks are clean, the object list is empty
    /// until finalization and parallel to the modules afterwards, and
    /// a compile index is in range.
    pub open spec fn wf(self) -> bool {
        &&& self.re_info.modules_wf()
        &&& self.re_info.frameworks_clean()
        &&& (match self.stage {
            Stage::Start => self.re_info.obj_file@.len() == 0,
            Stage::AwaitDump => self.re_info.obj_file@.len() == 0,
            Stage::AwaitManifest => self.re_info.obj_file@.len() == 0,
            Stage::AwaitSdkProbe => self.re_info.obj_file@.len() == 0 && supported_platform(
                self.re_info.platform@,
            ),
            Stage::AwaitToolProbe => self.re_info.obj_file@.len() == 0 && supported_platform(
                self.re_info.platform@,
            ),
            Stage::AwaitExtract => self.re_info.obj_file@.len()
                == self.re_info.file_compile@.len(),
            Stage::AwaitCompile { index } => self.re_info.obj_file@.len()
                == self.re_info.file_compile@.len() && index < self.re_info.file_compile@.len(),
            Stage::AwaitFind => self.re_info.obj_file@.len() == self.re_info.file_compile@.len(),
            Stage::AwaitLink => self.re_info.obj_file@.len() == self.re_info.file_compile@.len(),
            Stage::DoneNoBundle => true,
            Stage::DoneOk => true,
            Stage::Failed => true,
        })
    }

    /// Which event shape each waiting stage takes; terminal stages
    /// take none.
    pub open spec fn stage_expects(st: Stage, ev: PipeEvent) -> bool {
        match st {
            Stage::AwaitDump => ev matches PipeEvent::ExitStatus { .. },
            Stage::AwaitManifest => ev matches PipeEvent::ManifestBytes { .. },
            Stage::AwaitSdkProbe => ev matches PipeEvent::ProbeResult { .. },
            Stage::AwaitToolProbe => ev matches PipeEvent::ProbeResult { .. },
            Stage::AwaitExtract => ev matches PipeEvent::ExitStatus { .. },
            Stage::AwaitCompile { .. } => ev matches PipeEvent::ExitStatus { .. },
            Stage::AwaitFind => ev matches PipeEvent::CapturedOutput { .. },
            Stage::AwaitLink => ev matches PipeEvent::ExitStatus { .. },
            Stage::Start => false,
            Stage::DoneNoBundle => false,
            Stage::DoneOk => false,
            Stage::Failed => false,
        }
    }

    /// The host's guard: whether `step` takes this event now.
    pub fn expects(&self, ev: &PipeEvent) -> (r: bool)
        ensures
            r == Self::stage_expects(self.stage, *ev),
    {
        match self.stage {
            Stage::AwaitDump => matches!(ev, PipeEvent::ExitStatus { .. }),
            Stage::AwaitManifest => matches!(ev, PipeEvent::ManifestBytes { .. }),
            Stage::AwaitSdkProbe => matches!(ev, PipeEvent::ProbeResult { .. }),
            Stage::AwaitToolProbe => matches!(ev, PipeEvent::ProbeResult { .. }),
            Stage::AwaitExtract => matches!(ev, PipeEvent::ExitStatus { .. }),
            Stage::AwaitCompile { .. } => matches!(ev, PipeEvent::ExitStatus { .. }),
            Stage::AwaitFind => matches!(ev, PipeEvent::CapturedOutput { .. }),
            Stage::AwaitLink => matches!(ev, PipeEvent::ExitStatus { .. }),
            Stage::Start => false,
            Stage::DoneNoBundle => false,
            Stage::DoneOk => false,
            Stage::Failed => false,
        }
    }

    pub fn new() -> (r: MachOProcess)
        ensures
            r.wf(),
            r.stage == Stage::Start,
            r.xml_file@ == "tmp.xml"@,
            r.xar_file@ == "tmp.xar"@,
            r.sdk_override is None,
            r.tool_override is None,
            r.re_info.platform@ =~= Seq::<char>::empty(),
            r.re_info.lib_clang@ =~= Seq::<char>::empty(),
            r.re_info.tool_chain@ =~= Seq::<char>::empty(),
            r.re_info.sdk_path@ =~= Seq::<char>::empty(),
            r.re_info.obj_file@.len() == 0,
            r.re_info.link_framework@.len() == 0,
            r.re_info.link_options@.len() == 0,
            r.re_info.file_compile@.len() == 0,
    {
        MachOProcess {
            re_info: ReCompilerInfo::new(),
            xml_file: String::from_str("tmp.xml"),
            xar_file: String::from_str("tmp.xar"),
            sdk_override: None,
            tool_override: None,
            stage: Stage::Start,
        }
    }

    /// The table-of-contents dump invocation's arguments.
    fn dump_args(&self) -> (r: Vec<String>)
        ensures
            r.deep_view() == dump_args_spec(self.xml_file@, self.xar_file@),
    {
        let mut a: Vec<String> = Vec::new();
        let mut first = String::from_str("--dump-toc=");
        first.append(self.xml_file.as_str());
        a.push(first);
        a.push(String::from_str("-f"));
        a.push(self.xar_file.clone());
        proof {
            assert(a.deep_view() =~= dump_args_spec(self.xml_file@, self.xar_file@));
        }
        a
    }

    /// The archive extraction invocation's arguments.
    fn extract_args(&self) -> (r: Vec<String>)
        ensures
            r.deep_view() == extract_args_spec(self.xar_file@),
    {
        let mut a: Vec<String> = Vec::new();
        a.push(String::from_str("-xf"));
        a.push(self.xar_file.clone());
        proof {
            assert(a.deep_view() =~= extract_args_spec(self.xar_file@));
        }
        a
    }

    /// Module `i`'s code-generation arguments.
    fn compile_args(&self, i: usize) -> (r: Vec<String>)
        requires
            i < self.re_info.file_compile@.len(),
        ensures
            r.deep_view() == compile_args_spec(self.re_info.file_compile.deep_view()[i as int]),
    {
        let mut a: Vec<String> = Vec::new();
        a.push(String::from_str("-cc1"));
        let entry = &self.re_info.file_compile[i];
        let m = entry.len();
        let mut j: usize = 0;
        while j < m
            invariant
                m == entry@.len(),
                j <= m,
                entry.deep_view() == self.re_info.file_compile.deep_view()[i as int],
                i < self.re_info.file_compile@.len(),
                a.deep_view() =~= seq!["-cc1"@] + entry.deep_view().subrange(0, j as int),
            decreases m - j,
        {
            let ghost pre = a.deep_view();
            let val = entry[j].clone();
            let ghost valv = val@;
            a.push(val);
            j = j + 1;
            proof {
                assert(valv == entry.deep_view()[j - 1]);
                assert(a.deep_view() =~= pre.push(valv));
                assert(a.deep_view() =~= seq!["-cc1"@] + entry.deep_view().subrange(0, j as int));
            }
        }
        proof {
            assert(entry.deep_view().subrange(0, m as int) =~= entry.deep_view());
        }
        a
    }

    /// The runtime-library search invocation's arguments.
    fn find_args(&self) -> (r: Vec<String>)
        ensures
            r.deep_view() == find_args_spec(self.re_info.tool_chain@, self.re_info.lib_clang@),
    {
        let mut a: Vec<String> = Vec::new();
        a.push(self.re_info.tool_chain.clone());
        a.push(String::from_str("-name"));
        a.push(self.re_info.lib_clang.clone());
        proof {
            assert(a.deep_view() =~= find_args_spec(
                self.re_info.tool_chain@,
                self.re_info.lib_clang@,
            ));
        }
        a
    }

    /// The final link invocation's arguments.
    fn link_args(&self, lib_path: &String) -> (r: Vec<String>)
        ensures
            r.deep_view() == link_args_spec(self.re_info, lib_path@),
    {
        let mut a = rewrite_link_options(&self.re_info.link_options);
        a.push(String::from_str("-syslibroot"));
        a.push(self.re_info.sdk_path.clone());
        let ghost head = rewrite_spec(self.re_info.link_options.deep_view()) + seq![
            "-syslibroot"@,
            self.re_info.sdk_path@,
        ];
        proof {
            assert(a.deep_view() =~= head);
        }
        let fws = &self.re_info.link_framework;
        let n = fws.len();
        let mut i: usize = 0;
        while i < n
            invariant
                n == fws@.len(),
                i <= n,
                fws.deep_view() == self.re_info.link_framework.deep_view(),
                a.deep_view() =~= head + framework_pairs(fws.deep_view().subrange(0, i as int)),
            decreases n - i,
        {
            let ghost pre = a.deep_view();
            a.push(String::from_str("-framework"));
            let val = fws[i].clone();
            let ghost valv = val@;
            a.push(val);
            i = i + 1;
            proof {
                assert(valv == fws.deep_view()[i - 1]);
                assert(a.deep_view() =~= pre.push("-framework"@).push(valv));
                let taken = fws.deep_view().subrange(0, i as int);
                assert(taken.drop_last() =~= fws.deep_view().subrange(0, i - 1));
                assert(taken.last() == fws.deep_view()[i - 1]);
                assert(framework_pairs(taken) == framework_pairs(taken.drop_last()) + seq![
                    "-framework"@,
                    taken.last(),
                ]);
                assert(a.deep_view() =~= head + framework_pairs(taken));
            }
        }
        proof {
            assert(fws.deep_view().subrange(0, n as int) =~= fws.deep_view());
        }
        a.push(String::from_str("-lSystem"));
        a.push(lib_path.clone());
        let ghost head2 = head + framework_pairs(self.re_info.link_framework.deep_view()) + seq![
            "-lSystem"@,
            lib_path@,
        ];
        proof {
            assert(a.deep_view() =~= head2);
        }
        let objs = &self.re_info.obj_file;
        let k = objs.len();
        let mut j: usize = 0;
        while j < k
            invariant
                k == objs@.len(),
                j <= k,
                objs.deep_view() == self.re_info.obj_file.deep_view(),
                a.deep_view() =~= head2 + objs.deep_view().subrange(0, j as int),
            decreases k - j,
        {
            let ghost pre = a.deep_view();
            let val = objs[j].clone();
            let ghost valv = val@;
            a.push(val);
            j = j + 1;
            proof {
                assert(valv == objs.deep_view()[j - 1]);
                assert(a.deep_view() =~= pre.push(valv));
                assert(a.deep_view() =~= head2 + objs.deep_view().subrange(0, j as int));
            }
        }
        proof {
            assert(objs.deep_view().subrange(0, k as int) =~= objs.deep_view());
            assert(a.deep_view() =~= link_args_spec(self.re_info, lib_path@));
        }
        a
    }

    /// Takes one parsed input: stores the overrides, rejects container
    /// shapes, and either ends the run as a no-op (no bundle section)
    /// or extracts the bundle bytes and asks the host for the
    /// table-of-contents dump.
    pub fn handle_ofile(
        &mut self,
        kind: &OFileKind,
        ctxt: &mut FileContext<'_>,
        sdk_path: Option<String>,
        tool_chain: Option<String>,
    ) -> (r: Result<Option<PipeAction>, ErrorKind>)
        requires
            old(self).stage == Stage::Start,
            old(self).wf(),
        ensures
            final(self).wf(),
            final(self).xml_file == old(self).xml_file,
            final(self).xar_file == old(self).xar_file,
            final(self).sdk_override == sdk_path,
            final(self).tool_override == tool_chain,
            final(ctxt).data == old(ctxt).data,
            match kind {
                OFileKind::Mach { commands } => match locate_spec(commands@) {
                    None => r == Ok::<Option<PipeAction>, ErrorKind>(None) && final(self).stage
                        == Stage::DoneNoBundle && final(self).re_info == old(self).re_info,
                    Some(sec) => if sec.offset + sec.size <= old(ctxt).data@.len() {
                        &&& (r matches Ok(a) && a matches Some(act) && act
                            matches PipeAction::WriteBundleAndDump {
                            payload,
                            archive_file,
                            manifest_file,
                            program,
                            args,
                        } && payload@ == old(ctxt).data@.subrange(
                            sec.offset as int,
                            sec.offset + sec.size,
                        ) && archive_file@ == old(self).xar_file@ && manifest_file@ == old(self).xml_file@ && program@ == "xar"@ && args.deep_view() == dump_args_spec(
                            old(self).xml_file@,
                            old(self).xar_file@,
                        ))
                        &&& final(self).stage == Stage::AwaitDump
                        &&& final(self).re_info == old(self).re_info
                        &&& final(ctxt).pos == sec.offset + sec.size
                    } else {
                        &&& r == Err::<Option<PipeAction>, ErrorKind>(ErrorKind::ExtractionFailed)
                        &&& final(self).stage == Stage::Failed
                        &&& final(self).re_info == old(self).re_info
                    },
                },
                _ => r == Err::<Option<PipeAction>, ErrorKind>(ErrorKind::UnsupportedBinaryFormat)
                    && final(self).stage == Stage::Failed && final(self).re_info == old(self).re_info,
            },
    {
        self.sdk_override = sdk_path;
        self.tool_override = tool_chain;
        match kind {
            OFileKind::Mach { commands } => {
                match locate_bundle_section(commands) {
                    None => {
                        self.stage = Stage::DoneNoBundle;
                        Ok(None)
                    },
                    Some(sec) => {
                        ctxt.seek(sec.offset as usize);
                        match ctxt.section_hex(sec.addr, sec.size) {
                            Ok(payload) => {
                                let args = self.dump_args();
                                self.stage = Stage::AwaitDump;
                                Ok(
                                    Some(
                                        PipeAction::WriteBundleAndDump {
                                            payload,
                                            archive_file: self.xar_file.clone(),
                                            manifest_file: self.xml_file.clone(),
                                            program: String::from_str("xar"),
                                            args,
                                        },
                                    ),
                                )
                            },
                            Err(_) => {
                                self.stage = Stage::Failed;
                                Err(ErrorKind::ExtractionFailed)
                            },
                        }
                    },
                }
            },
            OFileKind::Fat => {
                self.stage = Stage::Failed;
                Err(ErrorKind::UnsupportedBinaryFormat)
            },
            OFileKind::Archive => {
                self.stage = Stage::Failed;
                Err(ErrorKind::UnsupportedBinaryFormat)
            },
            OFileKind::SymDef => {
                self.stage = Stage::Failed;
                Err(ErrorKind::UnsupportedBinaryFormat)
            },
        }
    }

    /// Folds one host outcome into the run and says what to do next.
    /// `Ok(None)` ends the run successfully; any `Err` ends it fatally
    /// and leaves the machine in a terminal stage, so a failed module
    /// compile can never be followed by a link.
    pub fn step(&mut self, ev: PipeEvent) -> (r: Result<Option<PipeAction>, ErrorKind>)
        requires
            old(self).wf(),
            Self::stage_expects(old(self).stage, ev),
        ensures
            final(self).wf(),
            final(self).xml_file == old(self).xml_file,
            final(self).xar_file == old(self).xar_file,
            final(self).sdk_override == old(self).sdk_override,
            final(self).tool_override == old(self).tool_override,
            r matches Err(_) ==> final(self).stage == Stage::Failed,
            match old(self).stage {
                Stage::AwaitDump => (match ev {
                    PipeEvent::ExitStatus { ok } => if ok {
                        &&& (r matches Ok(a) && a matches Some(act) && act
                            matches PipeAction::ReadManifest { manifest_file } && manifest_file@
                            == old(self).xml_file@)
                        &&& final(self).stage == Stage::AwaitManifest
                        &&& final(self).re_info == old(self).re_info
                    } else {
                        &&& r == Err::<Option<PipeAction>, ErrorKind>(ErrorKind::ExtractionFailed)
                        &&& final(self).re_info == old(self).re_info
                    },
                    _ => false,
                }),
                Stage::AwaitManifest => {
                    &&& final(self).re_info.tool_chain == old(self).re_info.tool_chain
                    &&& final(self).re_info.sdk_path == old(self).re_info.sdk_path
                    &&& final(self).re_info.obj_file == old(self).re_info.obj_file
                    &&& (r matches Err(e) ==> (e matches ErrorKind::ManifestParseFailed || (e
                        matches ErrorKind::UnsupportedPlatform && !supported_platform(
                        final(self).re_info.platform@,
                    ) && final(self).re_info.lib_clang == old(self).re_info.lib_clang)))
                    &&& (r matches Ok(a) ==> {
                        &&& final(self).stage == Stage::AwaitSdkProbe
                        &&& supported_platform(final(self).re_info.platform@)
                        &&& final(self).re_info.lib_clang@ == old(self).re_info.lib_clang@
                            + runtime_lib_for(final(self).re_info.platform@)
                        &&& (a matches Some(act) && act matches PipeAction::ProbePath { path }
                            && path@ == (match old(self).sdk_override {
                            Some(s) => s@,
                            None => default_sdk_for(final(self).re_info.platform@),
                        }))
                    })
                },
                Stage::AwaitSdkProbe => (match ev {
                    PipeEvent::ProbeResult { exists } => match sdk_outcome(
                        old(self).re_info.platform@,
                        old(self).sdk_override.deep_view(),
                        exists,
                    ) {
                        Err(e) => r == Err::<Option<PipeAction>, ErrorKind>(e) && final(self).re_info == old(self).re_info,
                        Ok(chosen) => {
                            &&& (r matches Ok(a) && a matches Some(act) && act
                                matches PipeAction::ProbePath { path } && path@ == (match old(self).tool_override {
                                Some(t) => t@,
                                None => default_toolchain(),
                            }))
                            &&& final(self).stage == Stage::AwaitToolProbe
                            &&& final(self).re_info.sdk_path@ == old(self).re_info.sdk_path@
                                + chosen
                            &&& final(self).re_info.platform == old(self).re_info.platform
                            &&& final(self).re_info.lib_clang == old(self).re_info.lib_clang
                            &&& final(self).re_info.tool_chain == old(self).re_info.tool_chain
                            &&& final(self).re_info.obj_file == old(self).re_info.obj_file
                            &&& final(self).re_info.link_framework == old(self).re_info.link_framework
                            &&& final(self).re_info.link_options == old(self).re_info.link_options
                            &&& final(self).re_info.file_compile == old(self).re_info.file_compile
                        },
                    },
                    _ => false,
                }),
                Stage::AwaitToolProbe => (match ev {
                    PipeEvent::ProbeResult { exists } => match tool_outcome(
                        old(self).tool_override.deep_view(),
                        exists,
                    ) {
                        Err(e) => r == Err::<Option<PipeAction>, ErrorKind>(e) && final(self).re_info == old(self).re_info,
                        Ok(chosen) => {
                            &&& (r matches Ok(a) && a matches Some(act) && act
                                matches PipeAction::Run { program, args } && program@ == "xar"@
                                && args.deep_view() == extract_args_spec(old(self).xar_file@))
                            &&& final(self).stage == Stage::AwaitExtract
                            &&& final(self).re_info.tool_chain@ == old(self).re_info.tool_chain@
                                + chosen
                            &&& final(self).re_info.platform == old(self).re_info.platform
                            &&& final(self).re_info.lib_clang == old(self).re_info.lib_clang
                            &&& final(self).re_info.sdk_path == old(self).re_info.sdk_path
                            &&& final(self).re_info.link_framework == old(self).re_info.link_framework
                            &&& final(self).re_info.link_options == old(self).re_info.link_options
                            &&& final(self).re_info.obj_file@.len() == old(self).re_info.file_compile@.len()
                            &&& (forall|i: int|
                                0 <= i < old(self).re_info.file_compile@.len() ==> final(self).re_info.obj_file.deep_view()[i] == old(self).re_info.file_compile.deep_view()[i][0] + ".o"@)
                            &&& (forall|i: int|
                                0 <= i < old(self).re_info.file_compile@.len() ==> final(self).re_info.file_compile.deep_view()[i] == old(self).re_info.file_compile.deep_view()[i] + seq![
                                    "-x"@,
                                    "ir"@,
                                    "-o"@,
                                    old(self).re_info.file_compile.deep_view()[i][0] + ".o"@,
                                ])
                        },
                    },
                    _ => false,
                }),
                Stage::AwaitExtract => (match ev {
                    PipeEvent::ExitStatus { ok } => if !ok {
                        &&& r == Err::<Option<PipeAction>, ErrorKind>(
                            ErrorKind::ArchiveExtractFailed,
                        )
                        &&& final(self).re_info == old(self).re_info
                    } else {
                        &&& final(self).re_info == old(self).re_info
                        &&& (if old(self).re_info.file_compile@.len() > 0 {
                            &&& (r matches Ok(a) && a matches Some(act) && act
                                matches PipeAction::Run { program, args } && program@ == "clang"@
                                && args.deep_view() == compile_args_spec(
                                old(self).re_info.file_compile.deep_view()[0],
                            ))
                            &&& final(self).stage == (Stage::AwaitCompile { index: 0 })
                        } else {
                            &&& (r matches Ok(a) && a matches Some(act) && act
                                matches PipeAction::RunCaptured { program, args } && program@
                                == "find"@ && args.deep_view() == find_args_spec(
                                old(self).re_info.tool_chain@,
                                old(self).re_info.lib_clang@,
                            ))
                            &&& final(self).stage == Stage::AwaitFind
                        })
                    },
                    _ => false,
                }),
                Stage::AwaitCompile { index } => (match ev {
                    PipeEvent::ExitStatus { ok } => if !ok {
                        &&& (r matches Err(e) && e matches ErrorKind::ModuleCompileFailed(name)
                            && name@ == old(self).re_info.file_compile.deep_view()[index as int][0])
                        &&& final(self).re_info == old(self).re_info
                    } else {
                        &&& final(self).re_info == old(self).re_info
                        &&& (if index + 1 < old(self).re_info.file_compile@.len() {
                            &&& (r matches Ok(a) && a matches Some(act) && act
                                matches PipeAction::Run { program, args } && program@ == "clang"@
                                && args.deep_view() == compile_args_spec(
                                old(self).re_info.file_compile.deep_view()[index + 1],
                            ))
                            &&& final(self).stage == (Stage::AwaitCompile { index: (index + 1) as usize })
                        } else {
                            &&& (r matches Ok(a) && a matches Some(act) && act
                                matches PipeAction::RunCaptured { program, args } && program@
                                == "find"@ && args.deep_view() == find_args_spec(
                                old(self).re_info.tool_chain@,
                                old(self).re_info.lib_clang@,
                            ))
                            &&& final(self).stage == Stage::AwaitFind
                        })
                    },
                    _ => false,
                }),
                Stage::AwaitFind => (match ev {
                    PipeEvent::CapturedOutput { ok, stdout } => if !ok {
                        &&& r == Err::<Option<PipeAction>, ErrorKind>(
                            ErrorKind::RuntimeLibraryNotFound,
                        )
                        &&& final(self).re_info == old(self).re_info
                    } else {
                        match find_output_path(stdout.deep_view()) {
                            Err(e) => r == Err::<Option<PipeAction>, ErrorKind>(e) && final(self).re_info == old(self).re_info,
                            Ok(p) => {
                                &&& (r matches Ok(a) && a matches Some(act) && act
                                    matches PipeAction::Run { program, args } && program@ == "ld"@
                                    && args.deep_view() == link_args_spec(old(self).re_info, p))
                                &&& final(self).stage == Stage::AwaitLink
                                &&& final(self).re_info == old(self).re_info
                            },
                        }
                    },
                    _ => false,
                }),
                Stage::AwaitLink => (match ev {
                    PipeEvent::ExitStatus { ok } => if ok {
                        &&& r == Ok::<Option<PipeAction>, ErrorKind>(None)
                        &&& final(self).stage == Stage::DoneOk
                        &&& final(self).re_info == old(self).re_info
                    } else {
                        &&& r == Err::<Option<PipeAction>, ErrorKind>(ErrorKind::LinkFailed)
                        &&& final(self).re_info == old(self).re_info
                    },
                    _ => false,
                }),
                _ => false,
            },
    {
        let stage = self.stage;
        match stage {
            Stage::AwaitDump => {
                match ev {
                    PipeEvent::ExitStatus { ok } => {
                        if ok {
                            self.stage = Stage::AwaitManifest;
                            Ok(
                                Some(
                                    PipeAction::ReadManifest {
                                        manifest_file: self.xml_file.clone(),
                                    },
                                ),
                            )
                        } else {
                            self.stage = Stage::Failed;
                            Err(ErrorKind::ExtractionFailed)
                        }
                    },
                    _ => unreached(),
                }
            },
            Stage::AwaitManifest => {
                match ev {
                    PipeEvent::ManifestBytes { bytes } => {
                        match parse_manifest_events(&mut self.re_info, bytes.as_slice()) {
                            Ok(()) => {},
                            Err(e) => {
                                self.stage = Stage::Failed;
                                return Err(e);
                            },
                        }
                        match self.re_info.select_runtime_lib() {
                            Ok(()) => {},
                            Err(e) => {
                                self.stage = Stage::Failed;
                                return Err(e);
                            },
                        }
                        let target = match self.re_info.sdk_probe_target(&self.sdk_override) {
                            Ok(t) => t,
                            Err(_) => unreached(),
                        };
                        self.stage = Stage::AwaitSdkProbe;
                        Ok(Some(PipeAction::ProbePath { path: target }))
                    },
                    _ => unreached(),
                }
            },
            Stage::AwaitSdkProbe => {
                match ev {
                    PipeEvent::ProbeResult { exists } => {
                        match self.re_info.resolve_sdk(&self.sdk_override, exists) {
                            Ok(()) => {
                                let path = self.re_info.tool_probe_target(&self.tool_override);
                                self.stage = Stage::AwaitToolProbe;
                                Ok(Some(PipeAction::ProbePath { path }))
                            },
                            Err(e) => {
                                self.stage = Stage::Failed;
                                Err(e)
                            },
                        }
                    },
                    _ => unreached(),
                }
            },
            Stage::AwaitToolProbe => {
                match ev {
                    PipeEvent::ProbeResult { exists } => {
                        match self.re_info.resolve_toolchain(&self.tool_override, exists) {
                            Ok(()) => {
                                self.re_info.finalize_objects();
                                let args = self.extract_args();
                                self.stage = Stage::AwaitExtract;
                                Ok(
                                    Some(
                                        PipeAction::Run {
                                            program: String::from_str("xar"),
                                            args,
                                        },
                                    ),
                                )
                            },
                            Err(e) => {
                                self.stage = Stage::Failed;
                                Err(e)
                            },
                        }
                    },
                    _ => unreached(),
                }
            },
            Stage::AwaitExtract => {
                match ev {
                    PipeEvent::ExitStatus { ok } => {
                        if !ok {
                            self.stage = Stage::Failed;
                            return Err(ErrorKind::ArchiveExtractFailed);
                        }
                        if self.re_info.file_compile.len() > 0 {
                            let args = self.compile_args(0);
                            self.stage = Stage::AwaitCompile { index: 0 };
                            Ok(Some(PipeAction::Run { program: String::from_str("clang"), args }))
                        } else {
                            let args = self.find_args();
                            self.stage = Stage::AwaitFind;
                            Ok(
                                Some(
                                    PipeAction::RunCaptured {
                                        program: String::from_str("find"),
                                        args,
                                    },
                                ),
                            )
                        }
                    },
                    _ => unreached(),
                }
            },
            Stage::AwaitCompile { index } => {
                match ev {
                    PipeEvent::ExitStatus { ok } => {
                        let n = self.re_info.file_compile.len();
                        if !ok {
                            let entry = &self.re_info.file_compile[index];
                            proof {
                                assert(entry.deep_view() == self.re_info.file_compile.deep_view()[
                                    index as int]);
                            }
                            let name = entry[0].clone();
                            self.stage = Stage::Failed;
                            return Err(ErrorKind::ModuleCompileFailed(name));
                        }
                        if index + 1 < n {
                            let args = self.compile_args(index + 1);
                            self.stage = Stage::AwaitCompile { index: index + 1 };
                            Ok(Some(PipeAction::Run { program: String::from_str("clang"), args }))
                        } else {
                            let args = self.find_args();
                            self.stage = Stage::AwaitFind;
                            Ok(
                                Some(
                                    PipeAction::RunCaptured {
                                        program: String::from_str("find"),
                                        args,
                                    },
                                ),
                            )
                        }
                    },
                    _ => unreached(),
                }
            },
            Stage::AwaitFind => {
                match ev {
                    PipeEvent::CapturedOutput { ok, stdout } => {
                        if !ok {
                            self.stage = Stage::Failed;
                            return Err(ErrorKind::RuntimeLibraryNotFound);
                        }
                        match parse_find_output(&stdout) {
                            Ok(lib_path) => {
                                let args = self.link_args(&lib_path);
                                self.stage = Stage::AwaitLink;
                                Ok(Some(PipeAction::Run { program: String::from_str("ld"), args }))
                            },
                            Err(e) => {
                                self.stage = Stage::Failed;
                                Err(e)
                            },
                        }
                    },
                    _ => unreached(),
                }
            },
            Stage::AwaitLink => {
                match ev {
                    PipeEvent::ExitStatus { ok } => {
                        if ok {
                            self.stage = Stage::DoneOk;
                            Ok(None)
                        } else {
                            self.stage = Stage::Failed;
                            Err(ErrorKind::LinkFailed)
                        }
                    },
                    _ => unreached(),
                }
            },
            Stage::Start => unreached(),
            Stage::DoneNoBundle => unreached(),
            Stage::DoneOk => unreached(),
            Stage::Failed => unreached(),
        }
    }
}

} // verus!
