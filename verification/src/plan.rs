//! The compile/link plan recovered from the bundle manifest, and the
//! SDK/toolchain resolution that validates the target platform.
//!
//! `ReCompilerInfo` is built incrementally while the manifest is
//! folded (platform, link options, frameworks, per-module compile
//! argument vectors), then finalized once: every module gets its
//! object-file name and the fixed compile trailer.

use vstd::prelude::*;
use crate::errors::ErrorKind;
use crate::strutil::{
    contains_sub, has_sub, leaf_of, leaf_string, lemma_has_sub_carries_char,
    lemma_leaf_has_no_slash, lemma_leaf_no_slash, str_eq,
};

verus! {

/// The substring naming the system library root: a framework path that
/// holds it is implicitly resolvable by the linker and is dropped.
pub open spec fn sys_lib_marker() -> Seq<char> {
    "/usr/lib"@
}

/// Framework normalization: a path holding the system-library-root
/// marker is rejected; otherwise only the leaf name is kept.
pub open spec fn normalize_framework_spec(s: Seq<char>) -> Option<Seq<char>> {
    if has_sub(s, sys_lib_marker()) {
        None
    } else {
        Some(leaf_of(s))
    }
}

/// The platforms the runtime-library table knows.
pub open spec fn supported_platform(p: Seq<char>) -> bool {
    p == "MacOSX"@ || p == "iPhoneOS"@
}

/// The platform-specific runtime-support archive name.
pub open spec fn runtime_lib_for(p: Seq<char>) -> Seq<char> {
    if p == "MacOSX"@ {
        "libclang_rt.osx.a"@
    } else {
        "libclang_rt.ios.a"@
    }
}

/// The platform-indexed default SDK path.
pub open spec fn default_sdk_for(p: Seq<char>) -> Seq<char> {
    if p == "MacOSX"@ {
        "/Applications/Xcode.app/Contents/Developer/Platforms/MacOSX.platform/Developer/SDKs/MacOSX.sdk"@
    } else {
        "/Applications/Xcode.app/Contents/Developer/Platforms/iPhoneOS.platform/Developer/SDKs/iPhoneOS.sdk"@
    }
}

/// The single default toolchain path.
pub open spec fn default_toolchain() -> Seq<char> {
    "/Applications/Xcode.app/Contents/Developer/Toolchains/XcodeDefault.xctoolchain/"@
}

/// What SDK resolution yields: the path suffix appended on success, or
/// the fatal condition.  `over` is the caller's override, `exists`
/// whether the probed path (override if given, default otherwise) is
/// on disk.
pub open spec fn sdk_outcome(p: Seq<char>, over: Option<Seq<char>>, exists: bool) -> Result<
    Seq<char>,
    ErrorKind,
> {
    match over {
        Some(s) => if !exists {
            Err(ErrorKind::InvalidSdkPath)
        } else if !has_sub(s, p) {
            Err(ErrorKind::PlatformMismatch)
        } else {
            Ok(s)
        },
        None => if exists {
            Ok(default_sdk_for(p))
        } else {
            Err(ErrorKind::SdkNotFound)
        },
    }
}

/// What toolchain resolution yields, in the same shape.
pub open spec fn tool_outcome(over: Option<Seq<char>>, exists: bool) -> Result<
    Seq<char>,
    ErrorKind,
> {
    match over {
        Some(t) => if exists {
            Ok(t)
        } else {
            Err(ErrorKind::InvalidToolchainPath)
        },
        None => if exists {
            Ok(default_toolchain())
        } else {
            Err(ErrorKind::ToolchainNotFound)
        },
    }
}

/// The central aggregate: platform, link configuration and per-module
/// compile argument vectors, plus the resolved paths.
pub struct ReCompilerInfo {
    pub platform: String,
    pub lib_clang: String,
    pub tool_chain: String,
    pub sdk_path: String,
    pub obj_file: Vec<String>,
    pub link_framework: Vec<String>,
    pub link_options: Vec<String>,
    pub file_compile: Vec<Vec<String>>,
}

/// Path resolution never touches the parts of the plan that the
/// manifest fold built.
pub open spec fn resolution_untouched(a: ReCompilerInfo, b: ReCompilerInfo) -> bool {
    &&& a.platform == b.platform
    &&& a.obj_file == b.obj_file
    &&& a.link_framework == b.link_framework
    &&& a.link_options == b.link_options
    &&& a.file_compile == b.file_compile
}

impl ReCompilerInfo {
    /// Every module's argument vector starts with its name, so is
    /// never empty.
    pub open spec fn modules_wf(self) -> bool {
        forall|i: int|
            0 <= i < self.file_compile@.len() ==> self.file_compile.deep_view()[i].len() >= 1
    }

    /// No kept framework holds the system-library-root marker.
    pub open spec fn frameworks_clean(self) -> bool {
        forall|i: int|
            0 <= i < self.link_framework@.len() ==> !has_sub(
                self.link_framework.deep_view()[i],
                sys_lib_marker(),
            )
    }

    pub fn new() -> (r: ReCompilerInfo)
        ensures
            r.platform@ =~= Seq::<char>::empty(),
            r.lib_clang@ =~= Seq::<char>::empty(),
            r.tool_chain@ =~= Seq::<char>::empty(),
            r.sdk_path@ =~= Seq::<char>::empty(),
            r.obj_file@ =~= Seq::<String>::empty(),
            r.link_framework@ =~= Seq::<String>::empty(),
            r.link_options@ =~= Seq::<String>::empty(),
            r.file_compile@ =~= Seq::<Vec<String>>::empty(),
            r.modules_wf(),
            r.frameworks_clean(),
    {
        ReCompilerInfo {
            platform: String::new(),
            lib_clang: String::new(),
            tool_chain: String::new(),
            sdk_path: String::new(),
            obj_file: Vec::new(),
            link_framework: Vec::new(),
            link_options: Vec::new(),
            file_compile: Vec::new(),
        }
    }

    /// A repeated `platform` element overwrites: last one wins.
    pub fn set_platform(&mut self, data: String)
        ensures
            final(self).platform == data,
            final(self).lib_clang == old(self).lib_clang,
            final(self).tool_chain == old(self).tool_chain,
            final(self).sdk_path == old(self).sdk_path,
            final(self).obj_file == old(self).obj_file,
            final(self).link_framework == old(self).link_framework,
            final(self).link_options == old(self).link_options,
            final(self).file_compile == old(self).file_compile,
    {
        self.platform = data;
    }

    /// Appends the normalized leaf name, or drops the path entirely
    /// when it holds the system-library-root marker.
    pub fn push_framework(&mut self, framework: &String)
        ensures
            final(self).platform == old(self).platform,
            final(self).lib_clang == old(self).lib_clang,
            final(self).tool_chain == old(self).tool_chain,
            final(self).sdk_path == old(self).sdk_path,
            final(self).obj_file == old(self).obj_file,
            final(self).link_options == old(self).link_options,
            final(self).file_compile == old(self).file_compile,
            match normalize_framework_spec(framework@) {
                Some(leaf) => final(self).link_framework.deep_view() =~= old(
                    self,
                ).link_framework.deep_view().push(leaf),
                None => final(self).link_framework == old(self).link_framework,
            },
            old(self).frameworks_clean() ==> final(self).frameworks_clean(),
    {
        if contains_sub(framework.as_str(), "/usr/lib") {
            return ;
        }
        let leaf = leaf_string(framework.as_str());
        proof {
            lemma_framework_leaf_clean(framework@);
        }
        self.link_framework.push(leaf);
        proof {
            assert(self.link_framework.deep_view() =~= old(
                self,
            ).link_framework.deep_view().push(leaf_of(framework@)));
            if old(self).frameworks_clean() {
                assert forall|i: int|
                    0 <= i < self.link_framework@.len() implies !has_sub(
                    self.link_framework.deep_view()[i],
                    sys_lib_marker(),
                ) by {
                    if i < self.link_framework@.len() - 1 {
                        assert(self.link_framework.deep_view()[i] == old(
                            self,
                        ).link_framework.deep_view()[i]);
                    }
                }
            }
        }
    }

    /// Linker flags are kept verbatim, in manifest order.
    pub fn push_option(&mut self, option: String)
        ensures
            final(self).platform == old(self).platform,
            final(self).lib_clang == old(self).lib_clang,
            final(self).tool_chain == old(self).tool_chain,
            final(self).sdk_path == old(self).sdk_path,
            final(self).obj_file == old(self).obj_file,
            final(self).link_framework == old(self).link_framework,
            final(self).file_compile == old(self).file_compile,
            final(self).link_options@ =~= old(self).link_options@.push(option),
    {
        self.link_options.push(option);
    }

    /// A `name` entry starts a new module argument vector holding just
    /// the module name.
    pub fn add_new_file_vec(&mut self, file_name: String)
        ensures
            final(self).platform == old(self).platform,
            final(self).lib_clang == old(self).lib_clang,
            final(self).tool_chain == old(self).tool_chain,
            final(self).sdk_path == old(self).sdk_path,
            final(self).obj_file == old(self).obj_file,
            final(self).link_framework == old(self).link_framework,
            final(self).link_options == old(self).link_options,
            final(self).file_compile.deep_view() =~= old(self).file_compile.deep_view().push(
                seq![file_name@],
            ),
            old(self).modules_wf() ==> final(self).modules_wf(),
    {
        let mut entry: Vec<String> = Vec::new();
        entry.push(file_name);
        self.file_compile.push(entry);
        proof {
            assert(self.file_compile.deep_view() =~~= old(self).file_compile.deep_view().push(
                seq![file_name@],
            ));
            if old(self).modules_wf() {
                assert forall|i: int|
                    0 <= i < self.file_compile@.len() implies self.file_compile.deep_view()[i].len()
                    >= 1 by {
                    if i < self.file_compile@.len() - 1 {
                        assert(self.file_compile.deep_view()[i] == old(
                            self,
                        ).file_compile.deep_view()[i]);
                    }
                }
            }
        }
    }

    /// A `cmd` entry appends one argument token to the most recently
    /// created module vector.
    pub fn add_file_cmd(&mut self, cmd: String)
        requires
            old(self).file_compile@.len() > 0,
        ensures
            final(self).platform == old(self).platform,
            final(self).lib_clang == old(self).lib_clang,
            final(self).tool_chain == old(self).tool_chain,
            final(self).sdk_path == old(self).sdk_path,
            final(self).obj_file == old(self).obj_file,
            final(self).link_framework == old(self).link_framework,
            final(self).link_options == old(self).link_options,
            final(self).file_compile.deep_view() =~= old(self).file_compile.deep_view().update(
                old(self).file_compile@.len() - 1,
                old(self).file_compile.deep_view().last().push(cmd@),
            ),
            old(self).modules_wf() ==> final(self).modules_wf(),
    {
        let n = self.file_compile.len();
        let mut entry: Vec<String> = Vec::new();
        self.file_compile.set_and_swap(n - 1, &mut entry);
        entry.push(cmd);
        self.file_compile.set(n - 1, entry);
        proof {
            assert(self.file_compile.deep_view() =~~= old(self).file_compile.deep_view().update(
                old(self).file_compile@.len() - 1,
                old(self).file_compile.deep_view().last().push(cmd@),
            ));
            if old(self).modules_wf() {
                assert forall|i: int|
                    0 <= i < self.file_compile@.len() implies self.file_compile.deep_view()[i].len()
                    >= 1 by {
                    if i < self.file_compile@.len() - 1 {
                        assert(self.file_compile.deep_view()[i] == old(
                            self,
                        ).file_compile.deep_view()[i]);
                    }
                }
            }
        }
    }

    /// Finalization, run once after the whole manifest is consumed:
    /// every module's object-file name is `name + ".o"`, recorded at
    /// the module's index, and the module's argument vector gains the
    /// fixed trailer directing intermediate-representation input into
    /// that object file.
    pub fn finalize_objects(&mut self)
        requires
            old(self).modules_wf(),
            old(self).obj_file@.len() == 0,
        ensures
            final(self).platform == old(self).platform,
            final(self).lib_clang == old(self).lib_clang,
            final(self).tool_chain == old(self).tool_chain,
            final(self).sdk_path == old(self).sdk_path,
            final(self).link_framework == old(self).link_framework,
            final(self).link_options == old(self).link_options,
            final(self).obj_file@.len() == old(self).file_compile@.len(),
            final(self).file_compile@.len() == old(self).file_compile@.len(),
            forall|i: int|
                0 <= i < old(self).file_compile@.len() ==> final(self).obj_file.deep_view()[i]
                    == old(self).file_compile.deep_view()[i][0] + ".o"@,
            forall|i: int|
                0 <= i < old(self).file_compile@.len() ==> final(self).file_compile.deep_view()[i]
                    == old(self).file_compile.deep_view()[i] + seq![
                    "-x"@,
                    "ir"@,
                    "-o"@,
                    old(self).file_compile.deep_view()[i][0] + ".o"@,
                ],
            final(self).modules_wf(),
    {
        let n = self.file_compile.len();
        let mut i: usize = 0;
        while i < n
            invariant
                n == old(self).file_compile@.len(),
                self.file_compile@.len() == n,
                i <= n,
                old(self).modules_wf(),
                self.platform == old(self).platform,
                self.lib_clang == old(self).lib_clang,
                self.tool_chain == old(self).tool_chain,
                self.sdk_path == old(self).sdk_path,
                self.link_framework == old(self).link_framework,
                self.link_options == old(self).link_options,
                self.obj_file@.len() == i,
                forall|j: int|
                    0 <= j < i ==> self.obj_file.deep_view()[j]
                        == old(self).file_compile.deep_view()[j][0] + ".o"@,
                forall|j: int|
                    0 <= j < i ==> self.file_compile.deep_view()[j]
                        == old(self).file_compile.deep_view()[j] + seq![
                        "-x"@,
                        "ir"@,
                        "-o"@,
                        old(self).file_compile.deep_view()[j][0] + ".o"@,
                    ],
                forall|j: int|
                    i <= j < n ==> self.file_compile.deep_view()[j] == old(
                        self,
                    ).file_compile.deep_view()[j],
            decreases n - i,
        {
            let ghost pre_obj = self.obj_file.deep_view();
            let ghost pre_fc = self.file_compile.deep_view();
            let mut entry: Vec<String> = Vec::new();
            self.file_compile.set_and_swap(i, &mut entry);
            proof {
                assert(entry.deep_view() =~= old(self).file_compile.deep_view()[i as int]);
            }
            let name = entry[0].clone();
            let out = name.concat(".o");
            let listed = out.clone();
            self.obj_file.push(listed);
            entry.push(String::from_str("-x"));
            entry.push(String::from_str("ir"));
            entry.push(String::from_str("-o"));
            entry.push(out);
            let ghost entry_dv = entry.deep_view();
            proof {
                assert(entry_dv =~= old(self).file_compile.deep_view()[i as int] + seq![
                    "-x"@,
                    "ir"@,
                    "-o"@,
                    old(self).file_compile.deep_view()[i as int][0] + ".o"@,
                ]);
            }
            self.file_compile.set(i, entry);
            proof {
                assert(self.obj_file.deep_view() =~= pre_obj.push(
                    old(self).file_compile.deep_view()[i as int][0] + ".o"@,
                ));
                assert(self.file_compile.deep_view() =~= pre_fc.update(i as int, entry_dv));
            }
            i = i + 1;
        }
    }

    /// The runtime-library table: an unrecognized platform is fatal
    /// before any filesystem access.
    pub fn select_runtime_lib(&mut self) -> (r: Result<(), ErrorKind>)
        ensures
            resolution_untouched(*old(self), *final(self)),
            final(self).sdk_path == old(self).sdk_path,
            final(self).tool_chain == old(self).tool_chain,
            supported_platform(old(self).platform@) ==> r == Ok::<(), ErrorKind>(())
                && final(self).lib_clang@ =~= old(self).lib_clang@ + runtime_lib_for(
                old(self).platform@,
            ),
            !supported_platform(old(self).platform@) ==> r == Err::<(), ErrorKind>(
                ErrorKind::UnsupportedPlatform,
            ) && final(self).lib_clang == old(self).lib_clang,
    {
        if str_eq(self.platform.as_str(), "MacOSX") {
            self.lib_clang.append("libclang_rt.osx.a");
            Ok(())
        } else if str_eq(self.platform.as_str(), "iPhoneOS") {
            self.lib_clang.append("libclang_rt.ios.a");
            Ok(())
        } else {
            Err(ErrorKind::UnsupportedPlatform)
        }
    }

    /// The path that SDK resolution will probe on disk: the override
    /// when one is given, the platform default otherwise.
    pub fn sdk_probe_target(&self, sdk_path: &Option<String>) -> (r: Result<String, ErrorKind>)
        ensures
            !supported_platform(self.platform@) ==> (r matches Err(e) && e
                == ErrorKind::UnsupportedPlatform),
            supported_platform(self.platform@) ==> (r matches Ok(t) && t@ == (match sdk_path {
                Some(s) => s@,
                None => default_sdk_for(self.platform@),
            })),
    {
        let osx = str_eq(self.platform.as_str(), "MacOSX");
        let ios = str_eq(self.platform.as_str(), "iPhoneOS");
        if !osx && !ios {
            return Err(ErrorKind::UnsupportedPlatform);
        }
        match sdk_path {
            Some(s) => Ok(s.clone()),
            None => {
                if osx {
                    Ok(String::from_str(
                        "/Applications/Xcode.app/Contents/Developer/Platforms/MacOSX.platform/Developer/SDKs/MacOSX.sdk",
                    ))
                } else {
                    Ok(String::from_str(
                        "/Applications/Xcode.app/Contents/Developer/Platforms/iPhoneOS.platform/Developer/SDKs/iPhoneOS.sdk",
                    ))
                }
            },
        }
    }

    /// The path that toolchain resolution will probe on disk.
    pub fn tool_probe_target(&self, tool_chain: &Option<String>) -> (r: String)
        ensures
            r@ == (match tool_chain {
                Some(t) => t@,
                None => default_toolchain(),
            }),
    {
        match tool_chain {
            Some(t) => t.clone(),
            None => String::from_str(
                "/Applications/Xcode.app/Contents/Developer/Toolchains/XcodeDefault.xctoolchain/",
            ),
        }
    }

    /// SDK resolution: an override must exist and must name the
    /// platform; the default must exist.  `sdk_exists` reports the
    /// probe of `sdk_probe_target`.
    pub fn resolve_sdk(&mut self, sdk_path: &Option<String>, sdk_exists: bool) -> (r: Result<
        (),
        ErrorKind,
    >)
        requires
            supported_platform(old(self).platform@),
        ensures
            resolution_untouched(*old(self), *final(self)),
            final(self).lib_clang == old(self).lib_clang,
            final(self).tool_chain == old(self).tool_chain,
            match sdk_outcome(old(self).platform@, sdk_path.deep_view(), sdk_exists) {
                Ok(chosen) => r == Ok::<(), ErrorKind>(()) && final(self).sdk_path@ =~= old(
                    self,
                ).sdk_path@ + chosen,
                Err(e) => r == Err::<(), ErrorKind>(e) && final(self).sdk_path == old(
                    self,
                ).sdk_path,
            },
    {
        match sdk_path {
            Some(s) => {
                if !sdk_exists {
                    return Err(ErrorKind::InvalidSdkPath);
                }
                if !contains_sub(s.as_str(), self.platform.as_str()) {
                    return Err(ErrorKind::PlatformMismatch);
                }
                self.sdk_path.append(s.as_str());
                Ok(())
            },
            None => {
                if !sdk_exists {
                    return Err(ErrorKind::SdkNotFound);
                }
                if str_eq(self.platform.as_str(), "MacOSX") {
                    self.sdk_path.append(
                        "/Applications/Xcode.app/Contents/Developer/Platforms/MacOSX.platform/Developer/SDKs/MacOSX.sdk",
                    );
                } else {
                    self.sdk_path.append(
                        "/Applications/Xcode.app/Contents/Developer/Platforms/iPhoneOS.platform/Developer/SDKs/iPhoneOS.sdk",
                    );
                }
                Ok(())
            },
        }
    }

    /// Toolchain resolution: an override must exist; absent one, the
    /// default is used when present.  `tool_exists` reports the probe
    /// of `tool_probe_target`.
    pub fn resolve_toolchain(&mut self, tool_chain: &Option<String>, tool_exists: bool) -> (r:
        Result<(), ErrorKind>)
        ensures
            resolution_untouched(*old(self), *final(self)),
            final(self).lib_clang == old(self).lib_clang,
            final(self).sdk_path == old(self).sdk_path,
            match tool_outcome(tool_chain.deep_view(), tool_exists) {
                Ok(chosen) => r == Ok::<(), ErrorKind>(()) && final(self).tool_chain@ =~= old(
                    self,
                ).tool_chain@ + chosen,
                Err(e) => r == Err::<(), ErrorKind>(e) && final(self).tool_chain == old(
                    self,
                ).tool_chain,
            },
    {
        match tool_chain {
            Some(t) => {
                if !tool_exists {
                    return Err(ErrorKind::InvalidToolchainPath);
                }
                self.tool_chain.append(t.as_str());
                Ok(())
            },
            None => {
                if !tool_exists {
                    return Err(ErrorKind::ToolchainNotFound);
                }
                self.tool_chain.append(
                    "/Applications/Xcode.app/Contents/Developer/Toolchains/XcodeDefault.xctoolchain/",
                );
                Ok(())
            },
        }
    }

    /// The whole resolution in the original order: runtime-library
    /// table, then SDK, then toolchain, stopping at the first fatal
    /// condition.  `sdk_exists` and `tool_exists` report the probes of
    /// `sdk_probe_target` and `tool_probe_target`.
    pub fn choose_path_from_platform(
        &mut self,
        sdk_path: &Option<String>,
        sdk_exists: bool,
        tool_chain: &Option<String>,
        tool_exists: bool,
    ) -> (r: Result<(), ErrorKind>)
        ensures
            resolution_untouched(*old(self), *final(self)),
            !supported_platform(old(self).platform@) ==> r == Err::<(), ErrorKind>(
                ErrorKind::UnsupportedPlatform,
            ) && *final(self) == *old(self),
            supported_platform(old(self).platform@) ==> final(self).lib_clang@ =~= old(
                self,
            ).lib_clang@ + runtime_lib_for(old(self).platform@) && (match sdk_outcome(
                old(self).platform@,
                sdk_path.deep_view(),
                sdk_exists,
            ) {
                Err(e) => r == Err::<(), ErrorKind>(e) && final(self).sdk_path == old(
                    self,
                ).sdk_path && final(self).tool_chain == old(self).tool_chain,
                Ok(chosen_sdk) => final(self).sdk_path@ =~= old(self).sdk_path@ + chosen_sdk
                    && (match tool_outcome(tool_chain.deep_view(), tool_exists) {
                    Err(e) => r == Err::<(), ErrorKind>(e) && final(self).tool_chain == old(
                        self,
                    ).tool_chain,
                    Ok(chosen_tool) => r == Ok::<(), ErrorKind>(()) && final(self).tool_chain@
                        =~= old(self).tool_chain@ + chosen_tool,
                }),
            }),
    {
        match self.select_runtime_lib() {
            Ok(()) => {},
            Err(e) => {
                return Err(e);
            },
        }
        match self.resolve_sdk(sdk_path, sdk_exists) {
            Ok(()) => {},
            Err(e) => {
                return Err(e);
            },
        }
        match self.resolve_toolchain(tool_chain, tool_exists) {
            Ok(()) => {},
            Err(e) => {
                return Err(e);
            },
        }
        Ok(())
    }
}

/// A framework path the marker check accepted has a leaf free of the
/// marker: the marker holds a `'/'` and a leaf holds none.
pub proof fn lemma_framework_leaf_clean(s: Seq<char>)
    requires
        !has_sub(s, sys_lib_marker()),
    ensures
        !has_sub(leaf_of(s), sys_lib_marker()),
{
    reveal_strlit("/usr/lib");
    lemma_leaf_has_no_slash(s);
    if has_sub(leaf_of(s), sys_lib_marker()) {
        lemma_has_sub_carries_char(leaf_of(s), sys_lib_marker(), 0);
    }
}

/// Framework normalization is idempotent: normalizing an
/// already-normalized leaf name yields the same leaf name.
pub proof fn lemma_normalize_idempotent(s: Seq<char>)
    requires
        normalize_framework_spec(s) matches Some(_),
    ensures
        normalize_framework_spec(s) matches Some(leaf) && normalize_framework_spec(leaf)
            == Some(leaf),
{
    let leaf = leaf_of(s);
    lemma_framework_leaf_clean(s);
    lemma_leaf_has_no_slash(s);
    lemma_leaf_no_slash(leaf);
}

/// A framework path holding the system-library-root marker is never
/// kept: normalization rejects it outright.
pub proof fn lemma_marker_rejected(s: Seq<char>)
    requires
        has_sub(s, sys_lib_marker()),
    ensures
        normalize_framework_spec(s) is None,
{
}

} // verus!
