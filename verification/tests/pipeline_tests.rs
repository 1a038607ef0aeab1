use bitcode_recomp::context::FileContext;
use bitcode_recomp::errors::ErrorKind;
use bitcode_recomp::macho::{LoadCmd, OFileKind, SectionRec};
use bitcode_recomp::pipeline::{
    apply_event, parse_find_output, rewrite_link_options, ElemKind, MachOProcess, ParseState,
    PipeAction, PipeEvent, Stage,
};
use bitcode_recomp::plan::ReCompilerInfo;
use bitcode_recomp::xmlio::MarkupEvent;

fn s(x: &str) -> String {
    x.to_string()
}

fn sv(xs: &[&str]) -> Vec<String> {
    xs.iter().map(|x| x.to_string()).collect()
}

const MACOSX_SDK: &str =
    "/Applications/Xcode.app/Contents/Developer/Platforms/MacOSX.platform/Developer/SDKs/MacOSX.sdk";
const DEFAULT_TOOLCHAIN: &str =
    "/Applications/Xcode.app/Contents/Developer/Toolchains/XcodeDefault.xctoolchain/";

#[test]
fn rewrite_rewrites_option_after_executable_path_flag() {
    let opts = sv(&["-executable_path", "/abs/build/out/App", "-x"]);
    let got = rewrite_link_options(&opts);
    assert_eq!(got, sv(&["-executable_path", "./App", "-x"]));
}

#[test]
fn rewrite_without_flag_changes_nothing() {
    let opts = sv(&["-demangle", "/abs/path", "-x"]);
    let got = rewrite_link_options(&opts);
    assert_eq!(got, opts);
}

#[test]
fn rewrite_handles_flag_at_end_and_repeats() {
    let opts = sv(&["-executable_path", "/a/b", "-executable_path", "c/d", "-executable_path"]);
    let got = rewrite_link_options(&opts);
    assert_eq!(
        got,
        sv(&["-executable_path", "./b", "-executable_path", "./d", "-executable_path"])
    );
}

#[test]
fn find_output_strips_one_trailing_newline() {
    let got = parse_find_output(&Some(s("/tc/lib/libclang_rt.osx.a\n"))).unwrap();
    assert_eq!(got, "/tc/lib/libclang_rt.osx.a");
    let kept = parse_find_output(&Some(s("/tc/lib/libclang_rt.osx.a"))).unwrap();
    assert_eq!(kept, "/tc/lib/libclang_rt.osx.a");
}

#[test]
fn find_output_empty_or_binary_is_fatal() {
    assert!(matches!(parse_find_output(&None), Err(ErrorKind::RuntimeLibraryNotFound)));
    assert!(matches!(parse_find_output(&Some(s(""))), Err(ErrorKind::RuntimeLibraryNotFound)));
    assert!(matches!(parse_find_output(&Some(s("\n"))), Err(ErrorKind::RuntimeLibraryNotFound)));
}

#[test]
fn fold_reads_only_first_character_event_per_element() {
    let mut info = ReCompilerInfo::new();
    let mut st = ParseState { ctx: ElemKind::Outside, seen: false };
    apply_event(&mut info, &mut st, MarkupEvent::StartElement(s("platform")));
    apply_event(&mut info, &mut st, MarkupEvent::Characters(s("MacOSX")));
    apply_event(&mut info, &mut st, MarkupEvent::Characters(s("garbled")));
    apply_event(&mut info, &mut st, MarkupEvent::EndElement);
    assert_eq!(info.platform, "MacOSX");
}

#[test]
fn fold_ignores_unknown_elements_and_loose_cmd() {
    let mut info = ReCompilerInfo::new();
    let mut st = ParseState { ctx: ElemKind::Outside, seen: false };
    apply_event(&mut info, &mut st, MarkupEvent::StartElement(s("future-element")));
    apply_event(&mut info, &mut st, MarkupEvent::Characters(s("ignored")));
    apply_event(&mut info, &mut st, MarkupEvent::EndElement);
    apply_event(&mut info, &mut st, MarkupEvent::StartElement(s("cmd")));
    apply_event(&mut info, &mut st, MarkupEvent::Characters(s("-O2")));
    apply_event(&mut info, &mut st, MarkupEvent::EndElement);
    assert!(info.file_compile.is_empty());
    assert!(info.link_options.is_empty());
    assert_eq!(info.platform, "");
}

fn bundle_commands(offset: u32, size: usize) -> Vec<LoadCmd> {
    vec![
        LoadCmd::Other,
        LoadCmd::Segment {
            sections: vec![SectionRec {
                segname: s("__LLVM"),
                sectname: s("__bundle"),
                addr: 0x5000,
                size,
                offset,
            }],
        },
    ]
}

const MANIFEST: &str = "<?xml version=\"1.0\" encoding=\"UTF-8\"?>\n\
<toc>\n\
  <platform>MacOSX</platform>\n\
  <option>-executable_path</option>\n\
  <option>/abs/build/out/App</option>\n\
  <lib>/System/Library/Frameworks/Foundation.framework</lib>\n\
  <lib>/usr/lib/libz.dylib</lib>\n\
  <file><name>alpha</name><cmd>-O2</cmd></file>\n\
  <file><name>beta</name><cmd>-Os</cmd></file>\n\
</toc>\n";

#[test]
fn full_run_synthesizes_every_command_line() {
    let data: Vec<u8> = (0u8..16).collect();
    let mut ctxt = FileContext::new(&data);
    let mut p = MachOProcess::new();
    let kind = OFileKind::Mach { commands: bundle_commands(4, 5) };

    // Locate and extract the bundle, ask for the dump.
    let act = p.handle_ofile(&kind, &mut ctxt, None, None).unwrap().unwrap();
    match act {
        PipeAction::WriteBundleAndDump { payload, archive_file, manifest_file, program, args } => {
            assert_eq!(payload, vec![4u8, 5, 6, 7, 8]);
            assert_eq!(archive_file, "tmp.xar");
            assert_eq!(manifest_file, "tmp.xml");
            assert_eq!(program, "xar");
            assert_eq!(args, sv(&["--dump-toc=tmp.xml", "-f", "tmp.xar"]));
        },
        _ => panic!("expected the dump request"),
    }

    // The dump succeeded; the machine wants the manifest bytes.
    let act = p.step(PipeEvent::ExitStatus { ok: true }).unwrap().unwrap();
    match act {
        PipeAction::ReadManifest { manifest_file } => assert_eq!(manifest_file, "tmp.xml"),
        _ => panic!("expected the manifest read"),
    }

    // The manifest is folded through the real markup parser.
    let act = p
        .step(PipeEvent::ManifestBytes { bytes: MANIFEST.as_bytes().to_vec() })
        .unwrap()
        .unwrap();
    match act {
        PipeAction::ProbePath { path } => assert_eq!(path, MACOSX_SDK),
        _ => panic!("expected the sdk probe"),
    }
    assert_eq!(p.re_info.platform, "MacOSX");
    assert_eq!(p.re_info.lib_clang, "libclang_rt.osx.a");
    assert_eq!(p.re_info.link_options, sv(&["-executable_path", "/abs/build/out/App"]));
    assert_eq!(p.re_info.link_framework, sv(&["Foundation.framework"]));

    let act = p.step(PipeEvent::ProbeResult { exists: true }).unwrap().unwrap();
    match act {
        PipeAction::ProbePath { path } => assert_eq!(path, DEFAULT_TOOLCHAIN),
        _ => panic!("expected the toolchain probe"),
    }

    // Toolchain resolved; the plan is finalized and extraction runs.
    let act = p.step(PipeEvent::ProbeResult { exists: true }).unwrap().unwrap();
    match act {
        PipeAction::Run { program, args } => {
            assert_eq!(program, "xar");
            assert_eq!(args, sv(&["-xf", "tmp.xar"]));
        },
        _ => panic!("expected the archive extraction"),
    }
    assert_eq!(p.re_info.obj_file, sv(&["alpha.o", "beta.o"]));

    // Each module compiles with its recovered vector plus the trailer.
    let act = p.step(PipeEvent::ExitStatus { ok: true }).unwrap().unwrap();
    match act {
        PipeAction::Run { program, args } => {
            assert_eq!(program, "clang");
            assert_eq!(args, sv(&["-cc1", "alpha", "-O2", "-x", "ir", "-o", "alpha.o"]));
        },
        _ => panic!("expected the first compile"),
    }
    let act = p.step(PipeEvent::ExitStatus { ok: true }).unwrap().unwrap();
    match act {
        PipeAction::Run { program, args } => {
            assert_eq!(program, "clang");
            assert_eq!(args, sv(&["-cc1", "beta", "-Os", "-x", "ir", "-o", "beta.o"]));
        },
        _ => panic!("expected the second compile"),
    }

    // The runtime library is searched under the toolchain.
    let act = p.step(PipeEvent::ExitStatus { ok: true }).unwrap().unwrap();
    match act {
        PipeAction::RunCaptured { program, args } => {
            assert_eq!(program, "find");
            assert_eq!(args, sv(&[DEFAULT_TOOLCHAIN, "-name", "libclang_rt.osx.a"]));
        },
        _ => panic!("expected the library search"),
    }

    // The link line: rewritten options, syslibroot, frameworks, the
    // runtime archive, then the objects.
    let act = p
        .step(PipeEvent::CapturedOutput {
            ok: true,
            stdout: Some(s("/tc/lib/libclang_rt.osx.a\n")),
        })
        .unwrap()
        .unwrap();
    match act {
        PipeAction::Run { program, args } => {
            assert_eq!(program, "ld");
            assert_eq!(
                args,
                sv(&[
                    "-executable_path",
                    "./App",
                    "-syslibroot",
                    MACOSX_SDK,
                    "-framework",
                    "Foundation.framework",
                    "-lSystem",
                    "/tc/lib/libclang_rt.osx.a",
                    "alpha.o",
                    "beta.o",
                ])
            );
        },
        _ => panic!("expected the link"),
    }

    let done = p.step(PipeEvent::ExitStatus { ok: true }).unwrap();
    assert!(done.is_none());
    assert!(matches!(p.stage, Stage::DoneOk));
}

#[test]
fn binary_without_bundle_is_a_successful_no_op() {
    let data = [0u8; 4];
    let mut ctxt = FileContext::new(&data);
    let mut p = MachOProcess::new();
    let kind = OFileKind::Mach {
        commands: vec![
            LoadCmd::Other,
            LoadCmd::Segment {
                sections: vec![SectionRec {
                    segname: s("__TEXT"),
                    sectname: s("__text"),
                    addr: 0,
                    size: 1,
                    offset: 0,
                }],
            },
        ],
    };
    let r = p.handle_ofile(&kind, &mut ctxt, None, None).unwrap();
    assert!(r.is_none());
    assert!(matches!(p.stage, Stage::DoneNoBundle));
    // A finished run takes no further event.
    assert!(!p.expects(&PipeEvent::ExitStatus { ok: true }));
}

#[test]
fn container_shapes_are_rejected() {
    let data = [0u8; 4];
    for kind in [OFileKind::Fat, OFileKind::Archive, OFileKind::SymDef] {
        let mut ctxt = FileContext::new(&data);
        let mut p = MachOProcess::new();
        let r = p.handle_ofile(&kind, &mut ctxt, None, None);
        assert!(matches!(r, Err(ErrorKind::UnsupportedBinaryFormat)));
        assert!(matches!(p.stage, Stage::Failed));
    }
}

#[test]
fn section_past_end_of_file_is_extraction_failure() {
    let data = [0u8; 6];
    let mut ctxt = FileContext::new(&data);
    let mut p = MachOProcess::new();
    let kind = OFileKind::Mach { commands: bundle_commands(4, 5) };
    let r = p.handle_ofile(&kind, &mut ctxt, None, None);
    assert!(matches!(r, Err(ErrorKind::ExtractionFailed)));
}

#[test]
fn failed_dump_is_extraction_failure() {
    let data: Vec<u8> = (0u8..16).collect();
    let mut ctxt = FileContext::new(&data);
    let mut p = MachOProcess::new();
    let kind = OFileKind::Mach { commands: bundle_commands(4, 5) };
    p.handle_ofile(&kind, &mut ctxt, None, None).unwrap();
    let r = p.step(PipeEvent::ExitStatus { ok: false });
    assert!(matches!(r, Err(ErrorKind::ExtractionFailed)));
    assert!(matches!(p.stage, Stage::Failed));
}

#[test]
fn unrecognized_platform_aborts_before_any_probe() {
    let data: Vec<u8> = (0u8..16).collect();
    let mut ctxt = FileContext::new(&data);
    let mut p = MachOProcess::new();
    let kind = OFileKind::Mach { commands: bundle_commands(4, 5) };
    p.handle_ofile(&kind, &mut ctxt, None, None).unwrap();
    p.step(PipeEvent::ExitStatus { ok: true }).unwrap();
    let manifest = "<toc><platform>Solaris</platform><file><name>alpha</name>\
                    <cmd>-O2</cmd></file></toc>";
    // The whole run aborts with no probe request: the error comes back
    // instead of an action, and the machine is terminal.
    let r = p.step(PipeEvent::ManifestBytes { bytes: manifest.as_bytes().to_vec() });
    assert!(matches!(r, Err(ErrorKind::UnsupportedPlatform)));
    assert!(matches!(p.stage, Stage::Failed));
    assert!(!p.expects(&PipeEvent::ProbeResult { exists: true }));
}

#[test]
fn malformed_manifest_is_fatal() {
    let data: Vec<u8> = (0u8..16).collect();
    let mut ctxt = FileContext::new(&data);
    let mut p = MachOProcess::new();
    let kind = OFileKind::Mach { commands: bundle_commands(4, 5) };
    p.handle_ofile(&kind, &mut ctxt, None, None).unwrap();
    p.step(PipeEvent::ExitStatus { ok: true }).unwrap();
    let r = p.step(PipeEvent::ManifestBytes { bytes: b"<toc><platform>".to_vec() });
    assert!(matches!(r, Err(ErrorKind::ManifestParseFailed)));
}

fn run_until_first_compile(p: &mut MachOProcess, ctxt: &mut FileContext<'_>) {
    let kind = OFileKind::Mach { commands: bundle_commands(4, 5) };
    p.handle_ofile(&kind, ctxt, None, None).unwrap();
    p.step(PipeEvent::ExitStatus { ok: true }).unwrap();
    p.step(PipeEvent::ManifestBytes { bytes: MANIFEST.as_bytes().to_vec() }).unwrap();
    p.step(PipeEvent::ProbeResult { exists: true }).unwrap();
    p.step(PipeEvent::ProbeResult { exists: true }).unwrap();
    p.step(PipeEvent::ExitStatus { ok: true }).unwrap();
}

#[test]
fn failed_module_compile_names_module_and_stops_before_link() {
    let data: Vec<u8> = (0u8..16).collect();
    let mut ctxt = FileContext::new(&data);
    let mut p = MachOProcess::new();
    run_until_first_compile(&mut p, &mut ctxt);
    let r = p.step(PipeEvent::ExitStatus { ok: false });
    match r {
        Err(ErrorKind::ModuleCompileFailed(name)) => assert_eq!(name, "alpha"),
        _ => panic!("expected the module compile failure"),
    }
    // The run is terminal: no link (or anything else) can follow.
    assert!(matches!(p.stage, Stage::Failed));
    assert!(!p.expects(&PipeEvent::ExitStatus { ok: true }));
    assert!(!p.expects(&PipeEvent::CapturedOutput { ok: true, stdout: None }));
}

#[test]
fn failed_archive_extraction_is_fatal() {
    let data: Vec<u8> = (0u8..16).collect();
    let mut ctxt = FileContext::new(&data);
    let mut p = MachOProcess::new();
    let kind = OFileKind::Mach { commands: bundle_commands(4, 5) };
    p.handle_ofile(&kind, &mut ctxt, None, None).unwrap();
    p.step(PipeEvent::ExitStatus { ok: true }).unwrap();
    p.step(PipeEvent::ManifestBytes { bytes: MANIFEST.as_bytes().to_vec() }).unwrap();
    p.step(PipeEvent::ProbeResult { exists: true }).unwrap();
    p.step(PipeEvent::ProbeResult { exists: true }).unwrap();
    let r = p.step(PipeEvent::ExitStatus { ok: false });
    assert!(matches!(r, Err(ErrorKind::ArchiveExtractFailed)));
}

#[test]
fn failed_library_search_is_fatal() {
    let data: Vec<u8> = (0u8..16).collect();
    let mut ctxt = FileContext::new(&data);
    let mut p = MachOProcess::new();
    run_until_first_compile(&mut p, &mut ctxt);
    p.step(PipeEvent::ExitStatus { ok: true }).unwrap();
    p.step(PipeEvent::ExitStatus { ok: true }).unwrap();
    let r = p.step(PipeEvent::CapturedOutput { ok: false, stdout: None });
    assert!(matches!(r, Err(ErrorKind::RuntimeLibraryNotFound)));
}

#[test]
fn failed_link_is_fatal() {
    let data: Vec<u8> = (0u8..16).collect();
    let mut ctxt = FileContext::new(&data);
    let mut p = MachOProcess::new();
    run_until_first_compile(&mut p, &mut ctxt);
    p.step(PipeEvent::ExitStatus { ok: true }).unwrap();
    p.step(PipeEvent::ExitStatus { ok: true }).unwrap();
    p.step(PipeEvent::CapturedOutput { ok: true, stdout: Some(s("/lib/x.a\n")) }).unwrap();
    let r = p.step(PipeEvent::ExitStatus { ok: false });
    assert!(matches!(r, Err(ErrorKind::LinkFailed)));
    assert!(matches!(p.stage, Stage::Failed));
}
