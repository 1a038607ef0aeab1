//! The load-command records the pipeline reads out of a parsed binary,
//! and the locator for the embedded bundle section.
//!
//! The host converts the external binary parser's output into these
//! plain records; everything the locator decides is verified here.

use vstd::prelude::*;
use crate::strutil::str_eq;

verus! {

/// One section of a segment command: the names and the raw location.
pub struct SectionRec {
    pub segname: String,
    pub sectname: String,
    pub addr: usize,
    pub size: usize,
    pub offset: u32,
}

/// One load command, reduced to what the locator reads: segment
/// commands carry their sections, everything else is opaque.
pub enum LoadCmd {
    Segment { sections: Vec<SectionRec> },
    Other,
}

/// The shapes a parsed input file can take; only a plain single
/// architecture binary is processed.
pub enum OFileKind {
    Mach { commands: Vec<LoadCmd> },
    Fat,
    Archive,
    SymDef,
}

/// The fixed pair naming the embedded bundle.
pub open spec fn is_bundle_section(s: SectionRec) -> bool {
    s.segname@ == "__LLVM"@ && s.sectname@ == "__bundle"@
}

/// The first bundle section at or after index `j` of one segment's
/// section list.
pub open spec fn find_in_sections_from(ss: Seq<SectionRec>, j: int) -> Option<SectionRec>
    decreases ss.len() - j,
{
    if j < 0 || j >= ss.len() {
        None
    } else if is_bundle_section(ss[j]) {
        Some(ss[j])
    } else {
        find_in_sections_from(ss, j + 1)
    }
}

/// The first bundle section at or after command index `i`, in command
/// order: the documented deterministic tie-break.
pub open spec fn locate_from(cmds: Seq<LoadCmd>, i: int) -> Option<SectionRec>
    decreases cmds.len() - i,
{
    if i < 0 || i >= cmds.len() {
        None
    } else {
        match cmds[i] {
            LoadCmd::Segment { sections } => match find_in_sections_from(sections@, 0) {
                Some(s) => Some(s),
                None => locate_from(cmds, i + 1),
            },
            LoadCmd::Other => locate_from(cmds, i + 1),
        }
    }
}

/// The first bundle section of the whole command list, or `None` when
/// the binary embeds no bundle.
pub open spec fn locate_spec(cmds: Seq<LoadCmd>) -> Option<SectionRec> {
    locate_from(cmds, 0)
}

/// Scans the load commands for the fixed segment/section pair naming
/// the embedded bundle; the first match in command order wins.  `None`
/// means the input needs no recompilation.
pub fn locate_bundle_section(cmds: &Vec<LoadCmd>) -> (r: Option<SectionRec>)
    ensures
        r == locate_spec(cmds@),
{
    let n = cmds.len();
    let mut i: usize = 0;
    while i < n
        invariant
            n == cmds@.len(),
            i <= n,
            locate_spec(cmds@) == locate_from(cmds@, i as int),
        decreases n - i,
    {
        match &cmds[i] {
            LoadCmd::Segment { sections } => {
                let m = sections.len();
                let mut j: usize = 0;
                while j < m
                    invariant
                        m == sections@.len(),
                        j <= m,
                        n == cmds@.len(),
                        i < n,
                        cmds@[i as int] == (LoadCmd::Segment { sections: *sections }),
                        locate_spec(cmds@) == locate_from(cmds@, i as int),
                        find_in_sections_from(sections@, 0) == find_in_sections_from(
                            sections@,
                            j as int,
                        ),
                    decreases m - j,
                {
                    let s = &sections[j];
                    if str_eq(s.segname.as_str(), "__LLVM") && str_eq(
                        s.sectname.as_str(),
                        "__bundle",
                    ) {
                        let found = SectionRec {
                            segname: s.segname.clone(),
                            sectname: s.sectname.clone(),
                            addr: s.addr,
                            size: s.size,
                            offset: s.offset,
                        };
                        proof {
                            assert(found == sections@[j as int]);
                            assert(find_in_sections_from(sections@, j as int) == Some(
                                sections@[j as int],
                            ));
                            assert(cmds@[i as int] == (LoadCmd::Segment { sections: *sections }));
                            assert(locate_from(cmds@, i as int) == Some(sections@[j as int]));
                        }
                        return Some(found);
                    }
                    j = j + 1;
                }
            },
            LoadCmd::Other => {},
        }
        i = i + 1;
    }
    None
}

} // verus!
