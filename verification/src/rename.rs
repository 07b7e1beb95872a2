//! The rename engine's pure core: for every artifact of the catalog, the
//! list of literal substitution patterns that rewrites its content from one
//! root identifier to another, and the plan of per-file actions (patch the
//! content, move the file where its name embeds the identifier).

use vstd::prelude::*;
use vstd::string::*;

use crate::catalog::{artifact_rel_path, artifact_rel_path_seq, role_order, ArtifactRole,
    ProjectLayout};
use crate::codegen::get_classname_uppercase;
use crate::replace::{apply_seq, lemma_apply_round_trip, nonempty_patterns, pair_views, round_trip_ok, swap_pairs};
use crate::symbols::{class_title_seq, to_upper, upper_seq, valid_root};

verus! {

/// Concatenation of two strings.
fn cat2(a: &str, b: &str) -> (r: String)
    ensures
        r@ == a@ + b@,
{
    let mut s = String::from_str(a);
    s.append(b);
    s
}

/// Concatenation of three strings.
fn cat3(a: &str, b: &str, c: &str) -> (r: String)
    ensures
        r@ == a@ + b@ + c@,
{
    let mut s = String::from_str(a);
    s.append(b);
    s.append(c);
    s
}

/// Concatenation of four strings.
fn cat4(a: &str, b: &str, c: &str, d: &str) -> (r: String)
    ensures
        r@ == a@ + b@ + c@ + d@,
{
    let mut s = String::from_str(a);
    s.append(b);
    s.append(c);
    s.append(d);
    s
}

/// The substitution patterns that rewrite one artifact's content from the
/// old root identifier `o` to the new one `n`: every literal fragment of the
/// artifact's content template that embeds a derived spelling, instantiated
/// once with each identifier and paired old to new.
pub open spec fn rename_patterns_seq(role: ArtifactRole, o: Seq<char>, n: Seq<char>) -> Seq<
    (Seq<char>, Seq<char>),
> {
    match role {
        ArtifactRole::ClassHeader => seq![
            (upper_seq(o) + "_CLASS_H"@, upper_seq(n) + "_CLASS_H"@),
            ("class "@ + class_title_seq(o), "class "@ + class_title_seq(n)),
            ("GDCLASS("@ + class_title_seq(o), "GDCLASS("@ + class_title_seq(n)),
            (class_title_seq(o) + "();"@, class_title_seq(n) + "();"@),
        ],
        ArtifactRole::ClassSource => seq![
            ("#include \""@ + o + ".h\""@, "#include \""@ + n + ".h\""@),
            (
                class_title_seq(o) + "::"@ + class_title_seq(o) + "()"@,
                class_title_seq(n) + "::"@ + class_title_seq(n) + "()"@,
            ),
            (
                class_title_seq(o) + "::~"@ + class_title_seq(o) + "()"@,
                class_title_seq(n) + "::~"@ + class_title_seq(n) + "()"@,
            ),
            (class_title_seq(o) + "::"@, class_title_seq(n) + "::"@),
        ],
        ArtifactRole::RegisterHeader => seq![
            (upper_seq(o) + "_REGISTER_TYPES_H"@, upper_seq(n) + "_REGISTER_TYPES_H"@),
            ("initialize_"@ + o + "_module"@, "initialize_"@ + n + "_module"@),
        ],
        ArtifactRole::RegisterSource => seq![
            ("#include \""@ + o + ".h\""@, "#include \""@ + n + ".h\""@),
            ("initialize_"@ + o + "_module"@, "initialize_"@ + n + "_module"@),
            (
                "ClassDB::register_class<"@ + class_title_seq(o) + ">();"@,
                "ClassDB::register_class<"@ + class_title_seq(n) + ">();"@,
            ),
            (o + "_library_init"@, n + "_library_init"@),
        ],
        ArtifactRole::BuildScons => seq![("libgd"@ + o, "libgd"@ + n)],
        ArtifactRole::BuildCmake => seq![
            ("project("@ + o + ")"@, "project("@ + n + ")"@),
            (
                "PROPERTY OUTPUT_NAME \""@ + o + "\""@,
                "PROPERTY OUTPUT_NAME \""@ + n + "\""@,
            ),
        ],
        ArtifactRole::ExtensionDescriptor => seq![
            (o + "_library_init"@, n + "_library_init"@),
            ("libgd"@ + o + "."@, "libgd"@ + n + "."@),
        ],
        ArtifactRole::ExtensionList => seq![(o + ".gdextension"@, n + ".gdextension"@)],
    }
}

/// Builds the substitution patterns of one artifact as executable strings.
pub fn rename_patterns(role: ArtifactRole, oldr: &str, newr: &str) -> (r: Vec<(String, String)>)
    requires
        oldr@.len() > 0,
        newr@.len() > 0,
    ensures
        pair_views(r@) == rename_patterns_seq(role, oldr@, newr@),
{
    let mut v: Vec<(String, String)> = Vec::new();
    match role {
        ArtifactRole::ClassHeader => {
            let ou = to_upper(oldr);
            let nu = to_upper(newr);
            let ot = get_classname_uppercase(oldr);
            let nt = get_classname_uppercase(newr);
            v.push((cat2(ou.as_str(), "_CLASS_H"), cat2(nu.as_str(), "_CLASS_H")));
            v.push((cat2("class ", ot.as_str()), cat2("class ", nt.as_str())));
            v.push((cat2("GDCLASS(", ot.as_str()), cat2("GDCLASS(", nt.as_str())));
            v.push((cat2(ot.as_str(), "();"), cat2(nt.as_str(), "();")));
        },
        ArtifactRole::ClassSource => {
            let ot = get_classname_uppercase(oldr);
            let nt = get_classname_uppercase(newr);
            v.push((cat3("#include \"", oldr, ".h\""), cat3("#include \"", newr, ".h\"")));
            v.push((
                cat4(ot.as_str(), "::", ot.as_str(), "()"),
                cat4(nt.as_str(), "::", nt.as_str(), "()"),
            ));
            v.push((
                cat4(ot.as_str(), "::~", ot.as_str(), "()"),
                cat4(nt.as_str(), "::~", nt.as_str(), "()"),
            ));
            v.push((cat2(ot.as_str(), "::"), cat2(nt.as_str(), "::")));
        },
        ArtifactRole::RegisterHeader => {
            let ou = to_upper(oldr);
            let nu = to_upper(newr);
            v.push((
                cat2(ou.as_str(), "_REGISTER_TYPES_H"),
                cat2(nu.as_str(), "_REGISTER_TYPES_H"),
            ));
            v.push((
                cat3("initialize_", oldr, "_module"),
                cat3("initialize_", newr, "_module"),
            ));
        },
        ArtifactRole::RegisterSource => {
            let ot = get_classname_uppercase(oldr);
            let nt = get_classname_uppercase(newr);
            v.push((cat3("#include \"", oldr, ".h\""), cat3("#include \"", newr, ".h\"")));
            v.push((
                cat3("initialize_", oldr, "_module"),
                cat3("initialize_", newr, "_module"),
            ));
            v.push((
                cat3("ClassDB::register_class<", ot.as_str(), ">();"),
                cat3("ClassDB::register_class<", nt.as_str(), ">();"),
            ));
            v.push((cat2(oldr, "_library_init"), cat2(newr, "_library_init")));
        },
        ArtifactRole::BuildScons => {
            v.push((cat2("libgd", oldr), cat2("libgd", newr)));
        },
        ArtifactRole::BuildCmake => {
            v.push((cat3("project(", oldr, ")"), cat3("project(", newr, ")")));
            v.push((
                cat3("PROPERTY OUTPUT_NAME \"", oldr, "\""),
                cat3("PROPERTY OUTPUT_NAME \"", newr, "\""),
            ));
        },
        ArtifactRole::ExtensionDescriptor => {
            v.push((cat2(oldr, "_library_init"), cat2(newr, "_library_init")));
            v.push((cat3("libgd", oldr, "."), cat3("libgd", newr, ".")));
        },
        ArtifactRole::ExtensionList => {
            v.push((cat2(oldr, ".gdextension"), cat2(newr, ".gdextension")));
        },
    }
    proof {
        assert forall|k: int| 0 <= k < v@.len() implies #[trigger] pair_views(v@)[k] == (
            v@[k].0@,
            v@[k].1@,
        ) by {}
        assert(pair_views(v@) =~= rename_patterns_seq(role, oldr@, newr@));
    }
    v
}

/// Every pattern's old side embeds the old identifier, so none is empty.
pub proof fn lemma_rename_patterns_nonempty(role: ArtifactRole, o: Seq<char>, n: Seq<char>)
    requires
        o.len() > 0,
    ensures
        nonempty_patterns(rename_patterns_seq(role, o, n)),
{
}

/// The same-order pairwise swap of a pattern list.
pub open spec fn flip_pairs(ps: Seq<(Seq<char>, Seq<char>)>) -> Seq<(Seq<char>, Seq<char>)> {
    ps.map_values(|p: (Seq<char>, Seq<char>)| (p.1, p.0))
}

/// Law: the pattern list that renames back is exactly the forward list with
/// every pair swapped, in the same catalog order, so a second rename with
/// the identifiers exchanged undoes the first pattern for pattern.
pub proof fn lemma_rename_patterns_symmetric(role: ArtifactRole, o: Seq<char>, n: Seq<char>)
    ensures
        rename_patterns_seq(role, n, o) == flip_pairs(rename_patterns_seq(role, o, n)),
{
    assert(rename_patterns_seq(role, n, o) =~= flip_pairs(rename_patterns_seq(role, o, n)));
}

/// Law (rename round trip): patching a text with one artifact's pattern
/// list and then with the swapped pairs in reverse order restores the text
/// byte for byte, whenever each new spelling is absent from the text it is
/// introduced into and is unbordered — as the spellings derived from two
/// distinct identifiers are in a generated, unmodified artifact.
pub proof fn lemma_rename_round_trip(role: ArtifactRole, o: Seq<char>, n: Seq<char>, s: Seq<char>)
    requires
        round_trip_ok(s, rename_patterns_seq(role, o, n)),
    ensures
        apply_seq(
            apply_seq(s, rename_patterns_seq(role, o, n)),
            swap_pairs(rename_patterns_seq(role, o, n)),
        ) == s,
{
    lemma_apply_round_trip(s, rename_patterns_seq(role, o, n));
}

/// True when the artifact's file name embeds the root identifier, so that a
/// rename moves the file itself.
pub open spec fn role_file_moves(role: ArtifactRole) -> bool {
    match role {
        ArtifactRole::ClassHeader => true,
        ArtifactRole::ClassSource => true,
        ArtifactRole::ExtensionDescriptor => true,
        _ => false,
    }
}

/// One step of a rename run: which file to patch, with which patterns, and
/// where to move it afterwards if its name embeds the identifier.
pub struct RenameAction {
    /// The artifact's current path, relative to the project root.
    pub rel_path: String,
    /// The (old, new) substitution patterns to apply to its content.
    pub patterns: Vec<(String, String)>,
    /// The artifact's new relative path, when the file itself moves.
    pub new_rel_path: Option<String>,
}

/// What a correct action for one artifact role looks like.
pub open spec fn action_ok(
    a: RenameAction,
    role: ArtifactRole,
    o: Seq<char>,
    n: Seq<char>,
    g: Seq<char>,
    sd: Seq<char>,
) -> bool {
    &&& a.rel_path@ == artifact_rel_path_seq(role, o, g, sd)
    &&& pair_views(a.patterns@) == rename_patterns_seq(role, o, n)
    &&& match a.new_rel_path {
        Option::Some(p) => role_file_moves(role) && p@ == artifact_rel_path_seq(role, n, g, sd),
        Option::None => !role_file_moves(role),
    }
}

/// Computes the full rename plan: one action per artifact of the catalog, in
/// catalog order, locating each file by its old path, patching its content
/// with the artifact's pattern list, and moving the files whose names embed
/// the identifier.
pub fn rename_plan(oldr: &str, newr: &str, layout: &ProjectLayout) -> (r: Vec<RenameAction>)
    requires
        valid_root(oldr@),
        valid_root(newr@),
        oldr@ != newr@,
        layout.wf(),
    ensures
        r@.len() == role_order().len(),
        forall|i: int|
            0 <= i < r@.len() ==> action_ok(
                #[trigger] r@[i],
                role_order()[i],
                oldr@,
                newr@,
                layout.godot_dir@,
                layout.src_dir@,
            ),
{
    let ghost g = layout.godot_dir@;
    let ghost sd = layout.src_dir@;
    let roles: [ArtifactRole; 8] = [
        ArtifactRole::ExtensionDescriptor,
        ArtifactRole::ExtensionList,
        ArtifactRole::BuildScons,
        ArtifactRole::BuildCmake,
        ArtifactRole::RegisterSource,
        ArtifactRole::RegisterHeader,
        ArtifactRole::ClassSource,
        ArtifactRole::ClassHeader,
    ];
    let mut v: Vec<RenameAction> = Vec::new();
    let mut i: usize = 0;
    while i < 8
        invariant
            valid_root(oldr@),
            valid_root(newr@),
            oldr@ != newr@,
            layout.wf(),
            g == layout.godot_dir@,
            sd == layout.src_dir@,
            i <= 8,
            roles@ =~= role_order(),
            v@.len() == i,
            forall|k: int|
                0 <= k < i ==> action_ok(#[trigger] v@[k], role_order()[k], oldr@, newr@, g, sd),
        decreases 8 - i,
    {
        let role = roles[i];
        let moves = match role {
            ArtifactRole::ClassHeader => true,
            ArtifactRole::ClassSource => true,
            ArtifactRole::ExtensionDescriptor => true,
            _ => false,
        };
        let a = RenameAction {
            rel_path: artifact_rel_path(role, oldr, layout),
            patterns: rename_patterns(role, oldr, newr),
            new_rel_path: if moves {
                Option::Some(artifact_rel_path(role, newr, layout))
            } else {
                Option::None
            },
        };
        let ghost prev = v@;
        v.push(a);
        proof {
            assert(role == role_order()[i as int]);
            assert(action_ok(v@[i as int], role_order()[i as int], oldr@, newr@, g, sd));
            assert forall|k: int| 0 <= k < i implies action_ok(
                #[trigger] v@[k],
                role_order()[k],
                oldr@,
                newr@,
                g,
                sd,
            ) by {
                assert(v@[k] == prev[k]);
            }
        }
        i = i + 1;
    }
    v
}

} // verus!
