use vstd::prelude::*;
use vstd::string::*;

verus! {

/// The fixed enumerated set of standard cursor names. Every one of them is
/// installed as a symlink aliasing the canonical cursor binary, and the
/// first one doubles as the existence probe for "aliases already installed".
pub open spec fn spec_standard_names() -> Seq<&'static str> {
    spec_names_a() + spec_names_b() + spec_names_c() + spec_names_d()
}

/// One stretch of the standard cursor names.
pub open spec fn spec_names_a() -> Seq<&'static str> {
    seq![
        "00008160000006810000408080010102",
        "028006030e0e7ebffc7f7070c0600140",
        "03b6e0fcb3499374a867c041f52298f0",
        "08e8e1c95fe2fc01f976f1e063a24ccd",
        "1081e37283d90000800003c07f3ef6bf",
        "14fef782d02440884392942c11205230",
        "2870a09082c103050810ffdffffe0204",
        "3085a0e285430894940527032f8b26df",
        "3ecb610c1bf2410f44200f48c40d3599",
        "4498f0e0c1937ffe01fd06f973665830",
        "5c6cd98b3f3ebcb1f9c7f1c204630408",
        "6407b0e94181790501fd1e167b474872",
        "640fb0e74195791501fd1ed57b41487f",
        "9081237383d90e509aa00f00170e968f",
        "9d800788f1b08800ae810202380a0822",
        "alias",
        "all-scroll",
        "arrow",
        "bd_double_arrow",
        "bottom_side",
        "bottom_tee",
        "cell",
        "circle",
        "context-menu",
        "copy"
    ]
}

/// One stretch of the standard cursor names.
pub open spec fn spec_names_b() -> Seq<&'static str> {
    seq![
        "cross",
        "crossed_circle",
        "crosshair",
        "cross_reverse",
        "d9ce0ab605698f320427677b458ad60b",
        "default",
        "diamond_cross",
        "dnd-ask",
        "dnd-copy",
        "dnd-link",
        "dnd-move",
        "dnd-no-drop",
        "dnd-none",
        "dotbox",
        "dot_box_mask",
        "double_arrow",
        "draft_large",
        "draft_small",
        "draped_box",
        "e29285e634086352946a0e7090d73106",
        "fd_double_arrow",
        "fleur",
        "grab",
        "grabbing",
        "hand"
    ]
}

/// One stretch of the standard cursor names.
pub open spec fn spec_names_c() -> Seq<&'static str> {
    seq![
        "hand1",
        "hand2",
        "h_double_arrow",
        "help",
        "icon",
        "left_ptr",
        "left_ptr_help",
        "left_ptr_watch",
        "left_side",
        "left_tee",
        "link",
        "ll_angle",
        "lr_angle",
        "move",
        "no-drop",
        "not-allowed",
        "pencil",
        "pirate",
        "plus",
        "pointer-move",
        "progress",
        "question_arrow",
        "right_ptr",
        "right_side",
        "right_tee"
    ]
}

/// One stretch of the standard cursor names.
pub open spec fn spec_names_d() -> Seq<&'static str> {
    seq![
        "sb_down_arrow",
        "sb_h_double_arrow",
        "sb_left_arrow",
        "sb_right_arrow",
        "sb_up_arrow",
        "sb_v_double_arrow",
        "target",
        "tcross",
        "text",
        "top_left_arrow",
        "top_side",
        "top_tee",
        "ul_angle",
        "ur_angle",
        "v_double_arrow",
        "vertical-text",
        "wait",
        "watch",
        "X_cursor",
        "xterm",
        "zoom-in",
        "zoom-out"
    ]
}

/// The standard names as character sequences, for the directory model.
pub open spec fn spec_standard_name_views() -> Seq<Seq<char>> {
    spec_standard_names().map_values(|s: &'static str| s@)
}

/// The canonical cursor binary's path, relative to the theme root; every
/// alias symlink targets it, and each cursor selection overwrites it.
pub open spec fn spec_canonical_rel_path() -> Seq<char> {
    "cursors/pointer"@
}

/// The install-once theme descriptor: it names the theme, shows one alias
/// as its example and declares fallback inheritance from the core theme.
pub open spec fn spec_index_theme_content() -> Seq<char> {
    "[Icon Theme]\nName=CMRedux Cursor\nExample=left_ptr\nInherits=core"@
}

/// A name ends in `.png`: the raster intermediates the build leaves behind
/// and the cleanup step must remove.
pub open spec fn spec_is_png_name(s: Seq<char>) -> bool {
    &&& s.len() >= 4
    &&& s[s.len() - 4] == '.'
    &&& s[s.len() - 3] == 'p'
    &&& s[s.len() - 2] == 'n'
    &&& s[s.len() - 1] == 'g'
}

#[verifier::rlimit(60)]
fn push_names_a(v: &mut Vec<&'static str>)
    ensures
        final(v)@ == old(v)@ + spec_names_a(),
{
    v.push("00008160000006810000408080010102");
    v.push("028006030e0e7ebffc7f7070c0600140");
    v.push("03b6e0fcb3499374a867c041f52298f0");
    v.push("08e8e1c95fe2fc01f976f1e063a24ccd");
    v.push("1081e37283d90000800003c07f3ef6bf");
    v.push("14fef782d02440884392942c11205230");
    v.push("2870a09082c103050810ffdffffe0204");
    v.push("3085a0e285430894940527032f8b26df");
    v.push("3ecb610c1bf2410f44200f48c40d3599");
    v.push("4498f0e0c1937ffe01fd06f973665830");
    v.push("5c6cd98b3f3ebcb1f9c7f1c204630408");
    v.push("6407b0e94181790501fd1e167b474872");
    v.push("640fb0e74195791501fd1ed57b41487f");
    v.push("9081237383d90e509aa00f00170e968f");
    v.push("9d800788f1b08800ae810202380a0822");
    v.push("alias");
    v.push("all-scroll");
    v.push("arrow");
    v.push("bd_double_arrow");
    v.push("bottom_side");
    v.push("bottom_tee");
    v.push("cell");
    v.push("circle");
    v.push("context-menu");
    v.push("copy");
    proof {
        assert(v@ =~= old(v)@ + spec_names_a());
    }
}

#[verifier::rlimit(60)]
fn push_names_b(v: &mut Vec<&'static str>)
    ensures
        final(v)@ == old(v)@ + spec_names_b(),
{
    v.push("cross");
    v.push("crossed_circle");
    v.push("crosshair");
    v.push("cross_reverse");
    v.push("d9ce0ab605698f320427677b458ad60b");
    v.push("default");
    v.push("diamond_cross");
    v.push("dnd-ask");
    v.push("dnd-copy");
    v.push("dnd-link");
    v.push("dnd-move");
    v.push("dnd-no-drop");
    v.push("dnd-none");
    v.push("dotbox");
    v.push("dot_box_mask");
    v.push("double_arrow");
    v.push("draft_large");
    v.push("draft_small");
    v.push("draped_box");
    v.push("e29285e634086352946a0e7090d73106");
    v.push("fd_double_arrow");
    v.push("fleur");
    v.push("grab");
    v.push("grabbing");
    v.push("hand");
    proof {
        assert(v@ =~= old(v)@ + spec_names_b());
    }
}

#[verifier::rlimit(60)]
fn push_names_c(v: &mut Vec<&'static str>)
    ensures
        final(v)@ == old(v)@ + spec_names_c(),
{
    v.push("hand1");
    v.push("hand2");
    v.push("h_double_arrow");
    v.push("help");
    v.push("icon");
    v.push("left_ptr");
    v.push("left_ptr_help");
    v.push("left_ptr_watch");
    v.push("left_side");
    v.push("left_tee");
    v.push("link");
    v.push("ll_angle");
    v.push("lr_angle");
    v.push("move");
    v.push("no-drop");
    v.push("not-allowed");
    v.push("pencil");
    v.push("pirate");
    v.push("plus");
    v.push("pointer-move");
    v.push("progress");
    v.push("question_arrow");
    v.push("right_ptr");
    v.push("right_side");
    v.push("right_tee");
    proof {
        assert(v@ =~= old(v)@ + spec_names_c());
    }
}

#[verifier::rlimit(60)]
fn push_names_d(v: &mut Vec<&'static str>)
    ensures
        final(v)@ == old(v)@ + spec_names_d(),
{
    v.push("sb_down_arrow");
    v.push("sb_h_double_arrow");
    v.push("sb_left_arrow");
    v.push("sb_right_arrow");
    v.push("sb_up_arrow");
    v.push("sb_v_double_arrow");
    v.push("target");
    v.push("tcross");
    v.push("text");
    v.push("top_left_arrow");
    v.push("top_side");
    v.push("top_tee");
    v.push("ul_angle");
    v.push("ur_angle");
    v.push("v_double_arrow");
    v.push("vertical-text");
    v.push("wait");
    v.push("watch");
    v.push("X_cursor");
    v.push("xterm");
    v.push("zoom-in");
    v.push("zoom-out");
    proof {
        assert(v@ =~= old(v)@ + spec_names_d());
    }
}

/// The full list of standard cursor names, in their fixed order.
#[verifier::rlimit(60)]
pub fn standard_cursor_names() -> (r: Vec<&'static str>)
    ensures
        r@ == spec_standard_names(),
{
    let mut v: Vec<&'static str> = Vec::new();
    push_names_a(&mut v);
    push_names_b(&mut v);
    push_names_c(&mut v);
    push_names_d(&mut v);
    proof {
        assert(v@ =~= spec_standard_names());
    }
    v
}

/// The alias name whose existence marks the aliases as already installed.
pub fn probe_alias_name() -> (r: &'static str)
    ensures
        r == spec_standard_names()[0],
{
    "00008160000006810000408080010102"
}

/// The canonical cursor binary's path relative to the theme root.
pub fn canonical_cursor_path() -> (r: &'static str)
    ensures
        r@ == spec_canonical_rel_path(),
{
    "cursors/pointer"
}

/// The exact text written to the theme descriptor file.
pub fn index_theme_content() -> (r: String)
    ensures
        r@ == spec_index_theme_content(),
{
    String::from_str("[Icon Theme]\nName=CMRedux Cursor\nExample=left_ptr\nInherits=core")
}

/// Whether a file name ends in `.png`.
pub fn is_png_name(name: &String) -> (r: bool)
    ensures
        r == spec_is_png_name(name@),
{
    let n = name.as_str().unicode_len();
    if n < 4 {
        return false;
    }
    let c1 = name.as_str().get_char(n - 4);
    let c2 = name.as_str().get_char(n - 3);
    let c3 = name.as_str().get_char(n - 2);
    let c4 = name.as_str().get_char(n - 1);
    c1 == '.' && c2 == 'p' && c3 == 'n' && c4 == 'g'
}

/// What one build run observes of the theme directory before acting: the
/// probe alias's existence, the descriptor's existence, and the names of
/// the files directly under the theme root.
pub struct DirObservation {
    pub probe_alias_exists: bool,
    pub index_theme_exists: bool,
    pub root_files: Vec<String>,
}

/// The actions one build run must perform: which alias symlinks to create
/// (each targeting the canonical binary), whether to write the descriptor,
/// and which files to delete from the theme root.
pub struct BuildPlan {
    pub create_aliases: Vec<&'static str>,
    pub write_index_theme: bool,
    pub remove_files: Vec<String>,
}

/// Decides the build actions from an observation of the directory. Aliases
/// and descriptor are install-once: they are created only when the probe
/// alias, respectively the descriptor, is absent. The cleanup of `.png`
/// intermediates is unconditional.
pub fn plan_install(obs: &DirObservation) -> (r: BuildPlan)
    ensures
        obs.probe_alias_exists ==> r.create_aliases@ == Seq::<&'static str>::empty(),
        !obs.probe_alias_exists ==> r.create_aliases@ == spec_standard_names(),
        r.write_index_theme == !obs.index_theme_exists,
        r.remove_files@.map_values(|s: String| s@) == obs.root_files@.map_values(
            |s: String| s@,
        ).filter(|n: Seq<char>| spec_is_png_name(n)),
{
    let create_aliases: Vec<&'static str> = if obs.probe_alias_exists {
        Vec::new()
    } else {
        standard_cursor_names()
    };
    let ghost mapped = obs.root_files@.map_values(|s: String| s@);
    let mut remove_files: Vec<String> = Vec::new();
    let mut i: usize = 0;
    while i < obs.root_files.len()
        invariant
            i <= obs.root_files@.len(),
            mapped == obs.root_files@.map_values(|s: String| s@),
            remove_files@.map_values(|s: String| s@) == mapped.subrange(0, i as int).filter(
                |n: Seq<char>| spec_is_png_name(n),
            ),
        decreases obs.root_files@.len() - i,
    {
        let ghost pre = mapped.subrange(0, i as int);
        let ghost pre2 = mapped.subrange(0, i as int + 1);
        if is_png_name(&obs.root_files[i]) {
            remove_files.push(obs.root_files[i].clone());
        }
        proof {
            reveal(Seq::filter);
            assert(pre2.drop_last() =~= pre);
            assert(pre2.last() == mapped[i as int]);
            assert(remove_files@.map_values(|s: String| s@) =~= pre2.filter(
                |n: Seq<char>| spec_is_png_name(n),
            ));
        }
        i += 1;
    }
    proof {
        assert(mapped.subrange(0, obs.root_files@.len() as int) =~= mapped);
    }
    BuildPlan { create_aliases, write_index_theme: !obs.index_theme_exists, remove_files }
}

/// An abstract view of the theme directory: the installed alias symlinks
/// with their targets, the descriptor's content if present, and the names
/// of the files directly under the theme root.
#[verifier::ext_equal]
pub struct ThemeDirModel {
    pub aliases: Map<Seq<char>, Seq<char>>,
    pub index_theme: Option<Seq<char>>,
    pub root_files: Set<Seq<char>>,
}

/// The probe the builder uses for "aliases already installed".
pub open spec fn spec_probe(m: ThemeDirModel) -> bool {
    m.aliases.dom().contains(spec_standard_names()[0]@)
}

/// Every standard name mapped to the canonical binary's path.
pub open spec fn spec_standard_alias_map() -> Map<Seq<char>, Seq<char>> {
    Map::new(
        |n: Seq<char>| spec_standard_name_views().contains(n),
        |n: Seq<char>| spec_canonical_rel_path(),
    )
}

/// The effect of one build run's install-once steps on the directory:
/// aliases are created only when the probe alias is missing (an alias that
/// already exists keeps its target), and the descriptor is written only
/// when absent. The files directly under the root are not touched here.
pub open spec fn spec_install(m: ThemeDirModel) -> ThemeDirModel {
    ThemeDirModel {
        aliases: if spec_probe(m) {
            m.aliases
        } else {
            spec_standard_alias_map().union_prefer_right(m.aliases)
        },
        index_theme: if m.index_theme is Some {
            m.index_theme
        } else {
            Some(spec_index_theme_content())
        },
        root_files: m.root_files,
    }
}

/// The effect of the unconditional cleanup step: every `.png`-named file
/// directly under the theme root is removed and nothing else changes.
pub open spec fn spec_cleanup(m: ThemeDirModel) -> ThemeDirModel {
    ThemeDirModel {
        aliases: m.aliases,
        index_theme: m.index_theme,
        root_files: Set::new(|n: Seq<char>| m.root_files.contains(n) && !spec_is_png_name(n)),
    }
}

/// A directory nothing has been installed into yet.
pub open spec fn spec_fresh_dir() -> ThemeDirModel {
    ThemeDirModel { aliases: Map::empty(), index_theme: None, root_files: Set::empty() }
}

/// After one install the probe alias exists, so a later run finds the
/// aliases already installed.
pub proof fn lemma_probe_after_install(m: ThemeDirModel)
    ensures
        spec_probe(spec_install(m)),
{
    let n0 = spec_standard_names()[0]@;
    if !spec_probe(m) {
        assert(spec_standard_names().len() == 97);
        assert(spec_standard_name_views().contains(n0)) by {
            assert(spec_standard_name_views()[0] == n0);
        }
        assert(spec_install(m).aliases.dom().contains(n0));
    }
}

/// Install-once idempotence: a second run of the installer changes nothing.
/// In particular, two runs against a fresh directory leave the same alias
/// symlinks and the same descriptor content as one run.
pub proof fn lemma_install_idempotent(m: ThemeDirModel)
    ensures
        spec_install(spec_install(m)) == spec_install(m),
{
    lemma_probe_after_install(m);
    let m1 = spec_install(m);
    assert(m1.index_theme is Some);
    assert(spec_install(m1) =~= m1);
}

/// Symlink stability: after a fresh install the probe alias exists, so a
/// second cursor selection recreates no alias; and every installed alias
/// targets the canonical path, so replacing the canonical binary is seen
/// through every alias without touching it.
pub proof fn lemma_symlink_stability(m: ThemeDirModel)
    requires
        m == spec_install(spec_fresh_dir()),
    ensures
        spec_probe(m),
        forall|n: Seq<char>| #[trigger]
            m.aliases.dom().contains(n) ==> m.aliases[n] == spec_canonical_rel_path(),
{
    lemma_probe_after_install(spec_fresh_dir());
    assert(!spec_probe(spec_fresh_dir()));
    assert forall|n: Seq<char>| #[trigger]
        m.aliases.dom().contains(n) implies m.aliases[n] == spec_canonical_rel_path() by {
        assert(!Map::<Seq<char>, Seq<char>>::empty().dom().contains(n));
        assert(spec_standard_alias_map().dom().contains(n));
    }
}

/// Cleanup is complete and harmless: afterwards no `.png`-named file
/// remains directly under the theme root, and the installed aliases and
/// descriptor are untouched.
pub proof fn lemma_cleanup_removes_pngs(m: ThemeDirModel)
    ensures
        forall|n: Seq<char>| spec_cleanup(m).root_files.contains(n) ==> !spec_is_png_name(n),
        spec_cleanup(m).aliases == m.aliases,
        spec_cleanup(m).index_theme == m.index_theme,
{
}

} // verus!
