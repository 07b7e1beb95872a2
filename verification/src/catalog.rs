//! The artifact catalog and the generation engine's pure core: the fixed set
//! of artifact roles, the path template of each, the dispatch from role to
//! content template, and the plan that a generation run materializes.

use vstd::prelude::*;
use vstd::string::*;

use crate::codegen::{
    class_cpp_seq, class_h_seq, cmakelists_seq, gdextension_list_seq, gdextension_seq,
    generate_class_cpp, generate_class_h, generate_cmakelists, generate_gdextension,
    generate_gdextension_list, generate_register_cpp, generate_register_h, generate_sconstruct,
    register_cpp_seq, register_h_seq, sconstruct_seq,
};
use crate::symbols::valid_root;

verus! {

/// The logical role of one generated artifact.
#[derive(Clone, Copy, PartialEq, Eq, Structural, Debug)]
pub enum ArtifactRole {
    /// The class header, named after the root identifier.
    ClassHeader,
    /// The class source, named after the root identifier.
    ClassSource,
    /// The registration header, with a fixed file name.
    RegisterHeader,
    /// The registration source, with a fixed file name.
    RegisterSource,
    /// The SConstruct build descriptor, at the project root.
    BuildScons,
    /// The CMakeLists build descriptor, at the project root.
    BuildCmake,
    /// The extension descriptor, named after the root identifier.
    ExtensionDescriptor,
    /// The one-line manifest naming the extension descriptor.
    ExtensionList,
}

/// The folder names a project is generated into. Kept as explicit
/// configuration so that callers and tests can vary them.
pub struct ProjectLayout {
    /// The host subfolder, holding the descriptor and its manifest.
    pub godot_dir: String,
    /// The source subfolder, holding the class and registration files.
    pub src_dir: String,
}

impl ProjectLayout {
    /// Both folder names are identifier-safe path segments.
    pub open spec fn wf(self) -> bool {
        &&& valid_root(self.godot_dir@)
        &&& valid_root(self.src_dir@)
    }
}

/// The layout the command-line tool uses by default.
pub fn default_layout() -> (r: ProjectLayout)
    ensures
        r.wf(),
        r.godot_dir@ == "godot"@,
        r.src_dir@ == "src"@,
{
    let r = ProjectLayout { godot_dir: String::from_str("godot"), src_dir: String::from_str("src") };
    proof {
        reveal_strlit("godot");
        reveal_strlit("src");
        assert(valid_root("godot"@));
        assert(valid_root("src"@));
    }
    r
}

/// The relative path of an artifact, as a sequence of characters, given the
/// root identifier and the two folder names.
pub open spec fn artifact_rel_path_seq(
    role: ArtifactRole,
    root: Seq<char>,
    godot: Seq<char>,
    srcd: Seq<char>,
) -> Seq<char> {
    match role {
        ArtifactRole::ClassHeader => srcd + "/"@ + root + ".h"@,
        ArtifactRole::ClassSource => srcd + "/"@ + root + ".cpp"@,
        ArtifactRole::RegisterHeader => srcd + "/register_types.h"@,
        ArtifactRole::RegisterSource => srcd + "/register_types.cpp"@,
        ArtifactRole::BuildScons => "SConstruct"@,
        ArtifactRole::BuildCmake => "CMakeLists.txt"@,
        ArtifactRole::ExtensionDescriptor => godot + "/"@ + root + ".gdextension"@,
        ArtifactRole::ExtensionList => godot + "/.godot/extension_list.cfg"@,
    }
}

/// The content of an artifact, as a sequence of characters.
pub open spec fn artifact_content_seq(role: ArtifactRole, root: Seq<char>) -> Seq<char> {
    match role {
        ArtifactRole::ClassHeader => class_h_seq(root),
        ArtifactRole::ClassSource => class_cpp_seq(root),
        ArtifactRole::RegisterHeader => register_h_seq(root),
        ArtifactRole::RegisterSource => register_cpp_seq(root),
        ArtifactRole::BuildScons => sconstruct_seq(root),
        ArtifactRole::BuildCmake => cmakelists_seq(root),
        ArtifactRole::ExtensionDescriptor => gdextension_seq(root),
        ArtifactRole::ExtensionList => gdextension_list_seq(root),
    }
}

/// The order in which a generation run writes the artifacts.
pub open spec fn role_order() -> Seq<ArtifactRole> {
    seq![
        ArtifactRole::ExtensionDescriptor,
        ArtifactRole::ExtensionList,
        ArtifactRole::BuildScons,
        ArtifactRole::BuildCmake,
        ArtifactRole::RegisterSource,
        ArtifactRole::RegisterHeader,
        ArtifactRole::ClassSource,
        ArtifactRole::ClassHeader,
    ]
}

/// The whole generation plan at the specification level: for every artifact
/// role, in write order, its relative path and its content.
pub open spec fn plan_seq(root: Seq<char>, godot: Seq<char>, srcd: Seq<char>) -> Seq<
    (Seq<char>, Seq<char>),
> {
    role_order().map_values(
        |role: ArtifactRole|
            (artifact_rel_path_seq(role, root, godot, srcd), artifact_content_seq(role, root)),
    )
}

/// One artifact a generation run will write: where, and with what content.
pub struct PlannedArtifact {
    /// Path relative to the project root, with `/` separators.
    pub rel_path: String,
    /// The full file content.
    pub content: String,
}

/// The (path, content) views of a sequence of planned artifacts.
pub open spec fn artifact_views(plan: Seq<PlannedArtifact>) -> Seq<(Seq<char>, Seq<char>)> {
    plan.map_values(|a: PlannedArtifact| (a.rel_path@, a.content@))
}

/// Renders the relative path of one artifact.
pub fn artifact_rel_path(role: ArtifactRole, root: &str, layout: &ProjectLayout) -> (r: String)
    requires
        valid_root(root@),
        layout.wf(),
    ensures
        r@ == artifact_rel_path_seq(role, root@, layout.godot_dir@, layout.src_dir@),
{
    match role {
        ArtifactRole::ClassHeader => {
            let mut s = String::from_str(layout.src_dir.as_str());
            s.append("/");
            s.append(root);
            s.append(".h");
            s
        },
        ArtifactRole::ClassSource => {
            let mut s = String::from_str(layout.src_dir.as_str());
            s.append("/");
            s.append(root);
            s.append(".cpp");
            s
        },
        ArtifactRole::RegisterHeader => {
            let mut s = String::from_str(layout.src_dir.as_str());
            s.append("/register_types.h");
            s
        },
        ArtifactRole::RegisterSource => {
            let mut s = String::from_str(layout.src_dir.as_str());
            s.append("/register_types.cpp");
            s
        },
        ArtifactRole::BuildScons => String::from_str("SConstruct"),
        ArtifactRole::BuildCmake => String::from_str("CMakeLists.txt"),
        ArtifactRole::ExtensionDescriptor => {
            let mut s = String::from_str(layout.godot_dir.as_str());
            s.append("/");
            s.append(root);
            s.append(".gdextension");
            s
        },
        ArtifactRole::ExtensionList => {
            let mut s = String::from_str(layout.godot_dir.as_str());
            s.append("/.godot/extension_list.cfg");
            s
        },
    }
}

/// Renders the content of one artifact.
pub fn artifact_content(role: ArtifactRole, root: &str) -> (r: String)
    requires
        valid_root(root@),
    ensures
        r@ == artifact_content_seq(role, root@),
{
    match role {
        ArtifactRole::ClassHeader => generate_class_h(root),
        ArtifactRole::ClassSource => generate_class_cpp(root),
        ArtifactRole::RegisterHeader => generate_register_h(root),
        ArtifactRole::RegisterSource => generate_register_cpp(root),
        ArtifactRole::BuildScons => generate_sconstruct(root),
        ArtifactRole::BuildCmake => generate_cmakelists(root),
        ArtifactRole::ExtensionDescriptor => generate_gdextension(root),
        ArtifactRole::ExtensionList => generate_gdextension_list(root),
    }
}

/// The directories a generation run must create below the project root,
/// parents before children.
pub fn plan_dirs(layout: &ProjectLayout) -> (r: Vec<String>)
    requires
        layout.wf(),
    ensures
        r@.len() == 3,
        r@[0]@ == layout.godot_dir@,
        r@[1]@ == layout.godot_dir@ + "/.godot"@,
        r@[2]@ == layout.src_dir@,
{
    let mut v: Vec<String> = Vec::new();
    v.push(String::from_str(layout.godot_dir.as_str()));
    let mut meta = String::from_str(layout.godot_dir.as_str());
    meta.append("/.godot");
    v.push(meta);
    v.push(String::from_str(layout.src_dir.as_str()));
    v
}

/// Computes the full generation plan for one root identifier: every artifact
/// of the catalog, in write order, with its path and content.
pub fn generate_plan(root: &str, layout: &ProjectLayout) -> (r: Vec<PlannedArtifact>)
    requires
        valid_root(root@),
        layout.wf(),
    ensures
        artifact_views(r@) == plan_seq(root@, layout.godot_dir@, layout.src_dir@),
{
    let ghost g = layout.godot_dir@;
    let ghost sd = layout.src_dir@;
    let mut v: Vec<PlannedArtifact> = Vec::new();
    let roles: [ArtifactRole; 8] = [
        ArtifactRole::ExtensionDescriptor,
        ArtifactRole::ExtensionList,
        ArtifactRole::BuildScons,
        ArtifactRole::BuildCmake,
        ArtifactRole::RegisterSource,
        ArtifactRole::RegisterHeader,
        ArtifactRole::ClassSource,
        ArtifactRole::ClassHeader,
    ];
    let mut i: usize = 0;
    while i < 8
        invariant
            valid_root(root@),
            valid_root(g),
            valid_root(sd),
            g == layout.godot_dir@,
            sd == layout.src_dir@,
            i <= 8,
            roles@ =~= role_order(),
            v@.len() == i,
            forall|k: int|
                0 <= k < i ==> #[trigger] artifact_views(v@)[k] == plan_seq(root@, g, sd)[k],
        decreases 8 - i,
    {
        let role = roles[i];
        let a = PlannedArtifact {
            rel_path: artifact_rel_path(role, root, layout),
            content: artifact_content(role, root),
        };
        let ghost prev = v@;
        v.push(a);
        proof {
            let k = i as int;
            assert(role == role_order()[k]);
            assert(v@[k].rel_path@ == artifact_rel_path_seq(role_order()[k], root@, g, sd));
            assert(v@[k].content@ == artifact_content_seq(role_order()[k], root@));
            assert(artifact_views(v@)[k] == (v@[k].rel_path@, v@[k].content@));
            assert(plan_seq(root@, g, sd)[k] == (
                artifact_rel_path_seq(role_order()[k], root@, g, sd),
                artifact_content_seq(role_order()[k], root@),
            ));
            assert forall|j: int| 0 <= j < k implies #[trigger] artifact_views(v@)[j] == plan_seq(
                root@,
                g,
                sd,
            )[j] by {
                assert(v@[j] == prev[j]);
                assert(artifact_views(prev)[j] == (prev[j].rel_path@, prev[j].content@));
                assert(artifact_views(v@)[j] == (v@[j].rel_path@, v@[j].content@));
            }
        }
        i = i + 1;
    }
    proof {
        assert(artifact_views(v@) =~= plan_seq(root@, g, sd));
    }
    v
}

/// True when `p` equals one of the paths in `ex`.
pub open spec fn path_in(ex: Seq<Seq<char>>, p: Seq<char>) -> bool {
    exists|k: int| 0 <= k < ex.len() && ex[k] == p
}

/// The character-level views of a list of path strings.
pub open spec fn path_views(ex: Seq<String>) -> Seq<Seq<char>> {
    ex.map_values(|s: String| s@)
}

/// Checks whether a path equals one of the listed paths.
fn path_listed(ex: &Vec<String>, p: &String) -> (r: bool)
    ensures
        r == path_in(path_views(ex@), p@),
{
    let mut k: usize = 0;
    while k < ex.len()
        invariant
            k <= ex@.len(),
            forall|j: int| 0 <= j < k ==> ex@[j]@ != p@,
        decreases ex@.len() - k,
    {
        if ex[k].eq(p) {
            proof {
                assert(path_views(ex@)[k as int] == ex@[k as int]@);
            }
            return true;
        }
        k = k + 1;
    }
    proof {
        assert forall|j: int| !(0 <= j < path_views(ex@).len() && path_views(ex@)[j] == p@) by {
            if 0 <= j < ex@.len() {
                assert(path_views(ex@)[j] == ex@[j]@);
            }
        }
    }
    false
}

/// What a generation run did against a directory that already held files:
/// the artifacts written, and the colliding path if the run was aborted.
pub struct GenerateOutcome {
    /// The artifacts written, in catalog order, up to the first collision.
    pub written: Vec<PlannedArtifact>,
    /// The first planned path that already existed, if any.
    pub collision: Option<String>,
}

/// Decides what a generation run writes into a directory already holding
/// the given relative paths. Artifacts are produced in catalog order until
/// the first whose target path already exists; that collision aborts the
/// run and is reported by path, and everything written before it is kept.
pub fn generate_outcome(root: &str, layout: &ProjectLayout, existing: &Vec<String>) -> (r:
    GenerateOutcome)
    requires
        valid_root(root@),
        layout.wf(),
    ensures
        ({
            let pv = plan_seq(root@, layout.godot_dir@, layout.src_dir@);
            let ex = path_views(existing@);
            match r.collision {
                Option::Some(p) => exists|j: int|
                    0 <= j < pv.len() && p@ == (#[trigger] pv[j]).0 && path_in(ex, pv[j].0) && (
                    forall|k: int| 0 <= k < j ==> !path_in(ex, (#[trigger] pv[k]).0))
                        && artifact_views(r.written@) == pv.take(j),
                Option::None => (forall|k: int|
                    0 <= k < pv.len() ==> !path_in(ex, (#[trigger] pv[k]).0)) && artifact_views(
                    r.written@,
                ) == pv,
            }
        }),
{
    let ghost g = layout.godot_dir@;
    let ghost sd = layout.src_dir@;
    let ghost pv = plan_seq(root@, g, sd);
    let ghost ex = path_views(existing@);
    let roles: [ArtifactRole; 8] = [
        ArtifactRole::ExtensionDescriptor,
        ArtifactRole::ExtensionList,
        ArtifactRole::BuildScons,
        ArtifactRole::BuildCmake,
        ArtifactRole::RegisterSource,
        ArtifactRole::RegisterHeader,
        ArtifactRole::ClassSource,
        ArtifactRole::ClassHeader,
    ];
    let mut written: Vec<PlannedArtifact> = Vec::new();
    let mut i: usize = 0;
    while i < 8
        invariant
            valid_root(root@),
            valid_root(g),
            valid_root(sd),
            g == layout.godot_dir@,
            sd == layout.src_dir@,
            pv == plan_seq(root@, g, sd),
            ex == path_views(existing@),
            i <= 8,
            roles@ =~= role_order(),
            written@.len() == i,
            forall|k: int| 0 <= k < i ==> !path_in(ex, (#[trigger] pv[k]).0),
            forall|k: int| 0 <= k < i ==> #[trigger] artifact_views(written@)[k] == pv[k],
        decreases 8 - i,
    {
        let role = roles[i];
        let path = artifact_rel_path(role, root, layout);
        proof {
            assert(role == role_order()[i as int]);
            assert(pv[i as int] == (
                artifact_rel_path_seq(role, root@, g, sd),
                artifact_content_seq(role, root@),
            ));
        }
        if path_listed(existing, &path) {
            proof {
                let j = i as int;
                assert(path@ == pv[j].0 && path_in(ex, pv[j].0));
                assert(artifact_views(written@) =~= pv.take(j));
            }
            return GenerateOutcome { written, collision: Option::Some(path) };
        }
        let content = artifact_content(role, root);
        let ghost prev = written@;
        written.push(PlannedArtifact { rel_path: path, content });
        proof {
            let k = i as int;
            assert(artifact_views(written@)[k] == (written@[k].rel_path@, written@[k].content@));
            assert forall|j: int| 0 <= j < k implies #[trigger] artifact_views(written@)[j]
                == pv[j] by {
                assert(written@[j] == prev[j]);
                assert(artifact_views(prev)[j] == (prev[j].rel_path@, prev[j].content@));
                assert(artifact_views(written@)[j] == (written@[j].rel_path@, written@[j].content@));
            }
        }
        i = i + 1;
    }
    proof {
        assert(artifact_views(written@) =~= pv);
    }
    GenerateOutcome { written, collision: Option::None }
}

/// Decides the relocation step of initialization. When the directory
/// listing holds a host project file, an existing project is being adopted:
/// every listed entry is to be moved into the host subfolder, and the
/// result pairs each entry with its destination. Otherwise nothing moves.
pub fn relocation_moves(entries: &Vec<String>, godot_dir: &str) -> (r: Option<
    Vec<(String, String)>,
>)
    ensures
        ({
            let ev = path_views(entries@);
            match r {
                Option::Some(moves) => {
                    &&& path_in(ev, "project.godot"@)
                    &&& moves@.len() == entries@.len()
                    &&& forall|i: int|
                        0 <= i < moves@.len() ==> (#[trigger] moves@[i]).0@ == entries@[i]@
                            && moves@[i].1@ == godot_dir@ + "/"@ + entries@[i]@
                },
                Option::None => !path_in(ev, "project.godot"@),
            }
        }),
{
    let needle = String::from_str("project.godot");
    if !path_listed(entries, &needle) {
        return Option::None;
    }
    let mut moves: Vec<(String, String)> = Vec::new();
    let mut i: usize = 0;
    while i < entries.len()
        invariant
            i <= entries@.len(),
            moves@.len() == i,
            forall|j: int|
                0 <= j < i ==> (#[trigger] moves@[j]).0@ == entries@[j]@ && moves@[j].1@
                    == godot_dir@ + "/"@ + entries@[j]@,
        decreases entries@.len() - i,
    {
        let src_name = String::from_str(entries[i].as_str());
        let mut dest = String::from_str(godot_dir);
        dest.append("/");
        dest.append(entries[i].as_str());
        let ghost prev = moves@;
        moves.push((src_name, dest));
        proof {
            assert forall|j: int| 0 <= j < i implies (#[trigger] moves@[j]).0@ == entries@[j]@
                && moves@[j].1@ == godot_dir@ + "/"@ + entries@[j]@ by {
                assert(moves@[j] == prev[j]);
            }
        }
        i = i + 1;
    }
    Option::Some(moves)
}

/// Law: generation is a pure function of the root identifier and the layout.
/// Two runs with the same root into the same layout plan byte-identical
/// paths and contents for every artifact.
pub proof fn lemma_generate_deterministic(
    r1: Seq<char>,
    r2: Seq<char>,
    godot: Seq<char>,
    srcd: Seq<char>,
)
    requires
        r1 == r2,
    ensures
        plan_seq(r1, godot, srcd) == plan_seq(r2, godot, srcd),
{
}

} // verus!
