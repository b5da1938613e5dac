//! The scene list: the built-in scene first, then every `.glsl` file of the
//! shader directory in name order; picking the scene to start with; and the
//! command line that hands the current choice to a wallpaper process.
//!
//! Listing the directory and resolving paths are file-system work done by the
//! caller; the functions here receive their results as plain strings.

use vstd::prelude::*;
use vstd::relations::{sorted_by, total_ordering};
use vstd::seq_lib::lemma_sorted_unique;

use crate::config::{spec_cli_name, AudioArg};
use crate::text::{chars_of, push_chars, string_of, sub_chars};

verus! {

broadcast use vstd::seq_lib::group_to_multiset_ensures, vstd::multiset::group_multiset_axioms;

// ---------------------------------------------------------------------------
// Name order
// ---------------------------------------------------------------------------

/// Names ordered character by character by code point; a proper prefix comes
/// first. For UTF-8 text this is the byte order in which paths sort.
pub open spec fn name_le(a: Seq<char>, b: Seq<char>) -> bool
    decreases a.len(),
{
    if a.len() == 0 {
        true
    } else if b.len() == 0 {
        false
    } else if a[0] != b[0] {
        (a[0] as int) < (b[0] as int)
    } else {
        name_le(a.drop_first(), b.drop_first())
    }
}

pub open spec fn name_order() -> spec_fn(Seq<char>, Seq<char>) -> bool {
    |a: Seq<char>, b: Seq<char>| name_le(a, b)
}

pub proof fn lemma_name_le_reflexive(a: Seq<char>)
    ensures
        name_le(a, a),
    decreases a.len(),
{
    if a.len() > 0 {
        lemma_name_le_reflexive(a.drop_first());
    }
}

pub proof fn lemma_name_le_antisymmetric(a: Seq<char>, b: Seq<char>)
    requires
        name_le(a, b),
        name_le(b, a),
    ensures
        a == b,
    decreases a.len(),
{
    if a.len() > 0 && b.len() > 0 {
        if a[0] == b[0] {
            lemma_name_le_antisymmetric(a.drop_first(), b.drop_first());
            assert(a =~= seq![a[0]] + a.drop_first());
            assert(b =~= seq![b[0]] + b.drop_first());
        }
    }
}

pub proof fn lemma_name_le_transitive(a: Seq<char>, b: Seq<char>, c: Seq<char>)
    requires
        name_le(a, b),
        name_le(b, c),
    ensures
        name_le(a, c),
    decreases a.len(),
{
    if a.len() > 0 && b.len() > 0 && c.len() > 0 {
        if a[0] == b[0] && b[0] == c[0] {
            lemma_name_le_transitive(a.drop_first(), b.drop_first(), c.drop_first());
        }
    }
}

pub proof fn lemma_name_le_total(a: Seq<char>, b: Seq<char>)
    ensures
        name_le(a, b) || name_le(b, a),
    decreases a.len(),
{
    if a.len() > 0 && b.len() > 0 && a[0] == b[0] {
        lemma_name_le_total(a.drop_first(), b.drop_first());
    }
}

/// Name order is a total order.
pub proof fn lemma_name_order_total()
    ensures
        total_ordering(name_order()),
{
    assert forall|a: Seq<char>| #[trigger] name_order()(a, a) by {
        lemma_name_le_reflexive(a);
    }
    assert forall|a: Seq<char>, b: Seq<char>|
        #[trigger] name_order()(a, b) && #[trigger] name_order()(b, a) implies a == b by {
        lemma_name_le_antisymmetric(a, b);
    }
    assert forall|a: Seq<char>, b: Seq<char>, c: Seq<char>|
        #[trigger] name_order()(a, b) && #[trigger] name_order()(b, c) implies name_order()(
        a,
        c,
    ) by {
        lemma_name_le_transitive(a, b, c);
    }
    assert forall|a: Seq<char>, b: Seq<char>|
        #[trigger] name_order()(a, b) || #[trigger] name_order()(b, a) by {
        lemma_name_le_total(a, b);
    }
}

/// A character's code as `u32` is its code point.
pub proof fn lemma_char_code(c: char)
    ensures
        (c as u32) as int == c as int,
{
}

/// Whether `a` comes no later than `b` in name order.
pub fn name_le_exec(a: &Vec<char>, b: &Vec<char>) -> (r: bool)
    ensures
        r == name_le(a@, b@),
{
    let mut i: usize = 0;
    assert(a@.skip(0) =~= a@);
    assert(b@.skip(0) =~= b@);
    while i < a.len() && i < b.len()
        invariant
            i <= a@.len(),
            i <= b@.len(),
            name_le(a@, b@) == name_le(a@.skip(i as int), b@.skip(i as int)),
        decreases a@.len() - i,
    {
        assert(a@.skip(i as int)[0] == a@[i as int]);
        assert(b@.skip(i as int)[0] == b@[i as int]);
        if a[i] != b[i] {
            let c: char = a[i];
            let d: char = b[i];
            proof {
                lemma_char_code(c);
                lemma_char_code(d);
            }
            return (c as u32) < (d as u32);
        }
        assert(a@.skip(i as int).drop_first() =~= a@.skip(i + 1));
        assert(b@.skip(i as int).drop_first() =~= b@.skip(i + 1));
        i = i + 1;
    }
    i == a.len()
}

// ---------------------------------------------------------------------------
// File names
// ---------------------------------------------------------------------------

/// Position of the last `.` in `s`, or -1 when there is none.
pub open spec fn last_dot(s: Seq<char>) -> int
    decreases s.len(),
{
    if s.len() == 0 {
        -1
    } else if s.last() == '.' {
        s.len() - 1
    } else {
        last_dot(s.drop_last())
    }
}

pub proof fn lemma_last_dot(s: Seq<char>)
    ensures
        -1 <= last_dot(s) < s.len(),
        last_dot(s) >= 0 ==> s[last_dot(s)] == '.',
        forall|j: int| last_dot(s) < j < s.len() ==> s[j] != '.',
    decreases s.len(),
{
    if s.len() > 0 && s.last() != '.' {
        lemma_last_dot(s.drop_last());
        assert forall|j: int| last_dot(s) < j < s.len() implies s[j] != '.' by {
            if j < s.len() - 1 {
                assert(s.drop_last()[j] == s[j]);
            }
        }
    }
}

/// A file name whose extension, as `Path::extension` reads it, is `glsl`:
/// the text after the last dot, where that dot is not the first character.
pub open spec fn has_glsl_extension(name: Seq<char>) -> bool {
    let i = last_dot(name);
    i > 0 && name.skip(i + 1) == seq!['g', 'l', 's', 'l']
}

/// The file stem (`Path::file_stem`) of a name that has an extension: the
/// text before the last dot.
pub open spec fn file_stem(name: Seq<char>) -> Seq<char> {
    name.take(last_dot(name))
}

/// Position of the last `.` of `s`.
pub fn last_dot_exec(s: &Vec<char>) -> (r: Option<usize>)
    ensures
        match r {
            Some(i) => i == last_dot(s@),
            None => last_dot(s@) == -1,
        },
{
    let mut i: usize = s.len();
    assert(s@.take(i as int) =~= s@);
    while i > 0
        invariant
            i <= s@.len(),
            last_dot(s@) == last_dot(s@.take(i as int)),
        decreases i,
    {
        if s[i - 1] == '.' {
            return Some(i - 1);
        }
        assert(s@.take(i as int).drop_last() =~= s@.take(i - 1));
        i = i - 1;
    }
    None
}

/// Where the stem of `name` ends, when its extension is `glsl`.
pub fn glsl_stem_end(name: &Vec<char>) -> (r: Option<usize>)
    ensures
        match r {
            Some(i) => has_glsl_extension(name@) && i == last_dot(name@),
            None => !has_glsl_extension(name@),
        },
{
    proof {
        lemma_last_dot(name@);
    }
    match last_dot_exec(name) {
        None => None,
        Some(i) => {
            if i == 0 || name.len() - i != 5 {
                assert(i > 0 ==> name@.skip(i + 1).len() != 4);
                return None;
            }
            if name[i + 1] == 'g' && name[i + 2] == 'l' && name[i + 3] == 's' && name[i + 4] == 'l' {
                assert(name@.skip(i + 1) =~= seq!['g', 'l', 's', 'l']);
                Some(i)
            } else {
                assert(name@.skip(i + 1)[0] == name@[i + 1]);
                assert(name@.skip(i + 1)[1] == name@[i + 2]);
                assert(name@.skip(i + 1)[2] == name@[i + 3]);
                assert(name@.skip(i + 1)[3] == name@[i + 4]);
                None
            }
        },
    }
}

// ---------------------------------------------------------------------------
// Sorted shader files
// ---------------------------------------------------------------------------

pub open spec fn glsl_pred() -> spec_fn(Seq<char>) -> bool {
    |n: Seq<char>| has_glsl_extension(n)
}

/// The text of each string.
pub open spec fn texts(v: Seq<String>) -> Seq<Seq<char>> {
    v.map_values(|s: String| s@)
}

/// The `.glsl` names among `names`, in name order.
pub open spec fn sorted_glsl(names: Seq<Seq<char>>) -> Seq<Seq<char>> {
    names.filter(glsl_pred()).sort_by(name_order())
}

/// The `.glsl` names among `names`, in name order.
pub fn sorted_glsl_names(names: &Vec<String>) -> (r: Vec<Vec<char>>)
    ensures
        r@.len() == sorted_glsl(texts(names@)).len(),
        forall|k: int| 0 <= k < r@.len() ==> #[trigger] r@[k]@ == sorted_glsl(texts(names@))[k],
{
    let ghost all = texts(names@);
    let mut files: Vec<Vec<char>> = Vec::new();
    let ghost mut g: Seq<Seq<char>> = Seq::empty();
    proof {
        lemma_name_order_total();
        reveal(Seq::filter);
        assert(all.take(0).filter(glsl_pred()) =~= Seq::<Seq<char>>::empty());
    }
    let mut i: usize = 0;
    while i < names.len()
        invariant
            i <= names@.len(),
            all == texts(names@),
            total_ordering(name_order()),
            g.len() == files@.len(),
            forall|k: int| 0 <= k < g.len() ==> #[trigger] files@[k]@ == g[k],
            sorted_by(g, name_order()),
            g.to_multiset() == all.take(i as int).filter(glsl_pred()).to_multiset(),
        decreases names@.len() - i,
    {
        let x = chars_of(names[i].as_str());
        assert(x@ == all[i as int]);
        let ghost before = all.take(i as int).filter(glsl_pred());
        proof {
            reveal(Seq::filter);
            assert(all.take(i + 1).drop_last() =~= all.take(i as int));
        }
        match glsl_stem_end(&x) {
            None => {
                assert(all.take(i + 1).filter(glsl_pred()) == before);
            },
            Some(_) => {
                assert(all.take(i + 1).filter(glsl_pred()) == before.push(x@));
                let mut p: usize = 0;
                while p < files.len()
                    invariant
                        p <= files@.len(),
                        g.len() == files@.len(),
                        forall|k: int| 0 <= k < g.len() ==> #[trigger] files@[k]@ == g[k],
                        forall|k: int| 0 <= k < p ==> name_le(#[trigger] g[k], x@),
                    ensures
                        p <= files@.len(),
                        g.len() == files@.len(),
                        forall|k: int| 0 <= k < g.len() ==> #[trigger] files@[k]@ == g[k],
                        forall|k: int| 0 <= k < p ==> name_le(#[trigger] g[k], x@),
                        p < files@.len() ==> !name_le(g[p as int], x@),
                    decreases files@.len() - p,
                {
                    if !name_le_exec(&files[p], &x) {
                        break;
                    }
                    p = p + 1;
                }
                let ghost old_g = g;
                let ghost old_files = files@;
                proof {
                    if p < g.len() {
                        lemma_name_le_total(g[p as int], x@);
                    }
                    g = g.insert(p as int, x@);
                    assert forall|a: int, b: int| 0 <= a < b < g.len() implies #[trigger] name_order()(
                        g[a],
                        g[b],
                    ) by {
                        if b < p {
                            assert(name_order()(old_g[a], old_g[b]));
                        } else if b == p {
                        } else if a < p {
                            assert(name_order()(old_g[p as int], old_g[b - 1]));
                            lemma_name_le_transitive(old_g[a], x@, old_g[p as int]);
                            lemma_name_le_transitive(old_g[a], old_g[p as int], old_g[b - 1]);
                        } else if a == p {
                            if p + 1 < b {
                                assert(name_order()(old_g[p as int], old_g[b - 1]));
                                lemma_name_le_transitive(x@, old_g[p as int], old_g[b - 1]);
                            }
                        } else {
                            assert(name_order()(old_g[a - 1], old_g[b - 1]));
                        }
                    }
                    assert(g.remove(p as int) =~= old_g);
                    assert(g[p as int] == x@);
                    assert(g.to_multiset() =~= old_g.to_multiset().insert(x@));
                }
                files.insert(p, x);
                assert forall|k: int| 0 <= k < g.len() implies #[trigger] files@[k]@ == g[k] by {
                    if k < p {
                        assert(files@[k] == old_files[k]);
                    }
                }
            },
        }
        i = i + 1;
    }
    proof {
        assert(all.take(names@.len() as int) =~= all);
        let want = sorted_glsl(all);
        all.filter(glsl_pred()).lemma_sort_by_ensures(name_order());
        lemma_sorted_unique(g, want, name_order());
    }
    files
}

/// The shader files of the scene list come in name order, and they are
/// exactly the `.glsl` names found, each as often as it was found.
pub proof fn lemma_scene_files_sorted(names: Seq<Seq<char>>)
    ensures
        sorted_by(sorted_glsl(names), name_order()),
        sorted_glsl(names).to_multiset() == names.filter(glsl_pred()).to_multiset(),
{
    lemma_name_order_total();
    names.filter(glsl_pred()).lemma_sort_by_ensures(name_order());
}

/// Every name in the sorted list has the `glsl` extension.
pub proof fn lemma_sorted_glsl_names(names: Seq<Seq<char>>)
    ensures
        forall|k: int|
            0 <= k < sorted_glsl(names).len() ==> has_glsl_extension(#[trigger] sorted_glsl(names)[k]),
{
    broadcast use vstd::seq_lib::group_filter_ensures;

    let kept = names.filter(glsl_pred());
    lemma_name_order_total();
    kept.lemma_sort_by_ensures(name_order());
    assert forall|k: int| 0 <= k < sorted_glsl(names).len() implies has_glsl_extension(
        #[trigger] sorted_glsl(names)[k],
    ) by {
        let x = sorted_glsl(names)[k];
        assert(sorted_glsl(names).contains(x));
        assert(kept.contains(x));
        let j = choose|j: int| 0 <= j < kept.len() && kept[j] == x;
        assert(glsl_pred()(kept[j]));
    }
}

// ---------------------------------------------------------------------------
// Scenes
// ---------------------------------------------------------------------------

/// Directory searched for Shadertoy GLSL scenes.
pub const SHADER_DIR: &'static str = "shaders";

/// Name of the built-in scene, always listed first.
pub const BUILTIN_SCENE_NAME: &'static str = "기본 — 오로라 + 스펙트럼";

/// Name of a requested shader file whose stem cannot be read.
pub const CUSTOM_SCENE_NAME: &'static str = "custom";

/// Where a scene's fragment shader comes from.
#[derive(Clone, Debug)]
pub enum SceneSource {
    Builtin,
    /// A Shadertoy GLSL file, by path.
    Glsl(String),
}

/// A selectable scene.
#[derive(Clone, Debug)]
pub struct Scene {
    pub name: String,
    pub source: SceneSource,
}

impl View for Scene {
    /// The name, and the shader path when the scene is a file.
    type V = (Seq<char>, Option<Seq<char>>);

    open spec fn view(&self) -> (Seq<char>, Option<Seq<char>>) {
        (
            self.name@,
            match self.source {
                SceneSource::Builtin => None,
                SceneSource::Glsl(p) => Some(p@),
            },
        )
    }
}

/// Path of a file of the shader directory, with the platform's path
/// separator `sep`.
pub open spec fn shader_path(file: Seq<char>, sep: char) -> Seq<char> {
    SHADER_DIR@.push(sep) + file
}

/// The scene list for a shader directory holding `names`: the built-in
/// scene, then one scene per `.glsl` file in name order, named by its stem.
pub open spec fn spec_scene_list(names: Seq<Seq<char>>, sep: char) -> Seq<
    (Seq<char>, Option<Seq<char>>),
> {
    seq![(BUILTIN_SCENE_NAME@, None::<Seq<char>>)] + sorted_glsl(names).map_values(
        |f: Seq<char>| (file_stem(f), Some(shader_path(f, sep))),
    )
}

/// The scenes on offer, given the file names found in [`SHADER_DIR`]
/// (an empty list when the directory cannot be read) and the platform's path
/// separator `sep`.
pub fn discover_scenes(names: &Vec<String>, sep: char) -> (r: Vec<Scene>)
    ensures
        r@.len() == spec_scene_list(texts(names@), sep).len(),
        forall|k: int|
            0 <= k < r@.len() ==> #[trigger] r@[k]@ == spec_scene_list(texts(names@), sep)[k],
{
    let ghost want = spec_scene_list(texts(names@), sep);
    let ghost sorted = sorted_glsl(texts(names@));
    let files = sorted_glsl_names(names);
    proof {
        lemma_sorted_glsl_names(texts(names@));
    }
    let mut scenes: Vec<Scene> = Vec::new();
    scenes.push(Scene { name: String::from_str(BUILTIN_SCENE_NAME), source: SceneSource::Builtin });
    let mut k: usize = 0;
    while k < files.len()
        invariant
            k <= files@.len(),
            files@.len() == sorted.len(),
            forall|j: int| 0 <= j < files@.len() ==> #[trigger] files@[j]@ == sorted[j],
            forall|j: int| 0 <= j < sorted.len() ==> has_glsl_extension(#[trigger] sorted[j]),
            want == spec_scene_list(texts(names@), sep),
            sorted == sorted_glsl(texts(names@)),
            scenes@.len() == k + 1,
            forall|j: int| 0 <= j <= k ==> #[trigger] scenes@[j]@ == want[j],
        decreases files@.len() - k,
    {
        let f = &files[k];
        assert(has_glsl_extension(sorted[k as int]));
        proof {
            lemma_last_dot(f@);
        }
        match glsl_stem_end(f) {
            Some(end) => {
                let stem = sub_chars(f, 0, end);
                let mut path = String::from_str(SHADER_DIR);
                path.push(sep);
                push_chars(&mut path, f);
                scenes.push(Scene { name: string_of(&stem), source: SceneSource::Glsl(path) });
                assert(stem@ =~= file_stem(sorted[k as int]));
            },
            None => {},
        }
        k = k + 1;
    }
    scenes
}

/// Whether scene `j` is a file whose resolved path equals the wanted one.
/// `resolved[j]` is scene `j`'s path after resolution (`None` when that
/// failed); scenes past the end of `resolved` match nothing.
pub open spec fn scene_matches(
    scenes: Seq<Scene>,
    resolved: Seq<Option<String>>,
    wanted: Option<String>,
    j: int,
) -> bool {
    &&& 0 <= j < scenes.len()
    &&& j < resolved.len()
    &&& scenes[j].source is Glsl
    &&& opt_text(resolved[j]) == opt_text(wanted)
}

pub open spec fn opt_text(o: Option<String>) -> Option<Seq<char>> {
    match o {
        Some(s) => Some(s@),
        None => None,
    }
}

fn same_opt_text(a: &Option<String>, b: &Option<String>) -> (r: bool)
    ensures
        r == (opt_text(*a) == opt_text(*b)),
{
    match a {
        Some(x) => match b {
            Some(y) => *x == *y,
            None => false,
        },
        None => b.is_none(),
    }
}

/// The first file scene whose resolved path equals `wanted`.
pub fn find_scene(scenes: &Vec<Scene>, resolved: &Vec<Option<String>>, wanted: &Option<String>) -> (r:
    Option<usize>)
    ensures
        match r {
            Some(i) => scene_matches(scenes@, resolved@, *wanted, i as int) && forall|j: int|
                0 <= j < i ==> !#[trigger] scene_matches(scenes@, resolved@, *wanted, j),
            None => forall|j: int| !#[trigger] scene_matches(scenes@, resolved@, *wanted, j),
        },
{
    let mut j: usize = 0;
    while j < scenes.len() && j < resolved.len()
        invariant
            j <= scenes@.len(),
            j <= resolved@.len(),
            forall|i: int| 0 <= i < j ==> !#[trigger] scene_matches(scenes@, resolved@, *wanted, i),
        decreases scenes@.len() - j,
    {
        let is_file = match &scenes[j].source {
            SceneSource::Glsl(_) => true,
            SceneSource::Builtin => false,
        };
        if is_file && same_opt_text(&resolved[j], wanted) {
            return Some(j);
        }
        j = j + 1;
    }
    None
}

/// The scene to start with when a shader file was asked for: the first file
/// scene that resolves to the same path as `path` (`wanted` being `path`
/// resolved), or else a new scene for `path`, appended to the list and named
/// by its file stem (`stem`) or, lacking one, [`CUSTOM_SCENE_NAME`].
pub fn select_initial_scene(
    scenes: &mut Vec<Scene>,
    resolved: &Vec<Option<String>>,
    wanted: &Option<String>,
    path: String,
    stem: Option<String>,
) -> (r: usize)
    ensures
        r <= old(scenes)@.len(),
        r < old(scenes)@.len() ==> {
            &&& final(scenes)@ == old(scenes)@
            &&& scene_matches(old(scenes)@, resolved@, *wanted, r as int)
            &&& forall|j: int| 0 <= j < r ==> !#[trigger] scene_matches(old(scenes)@, resolved@, *wanted, j)
        },
        r == old(scenes)@.len() ==> {
            &&& forall|j: int| !#[trigger] scene_matches(old(scenes)@, resolved@, *wanted, j)
            &&& final(scenes)@.len() == old(scenes)@.len() + 1
            &&& forall|j: int| 0 <= j < r ==> #[trigger] final(scenes)@[j] == old(scenes)@[j]
            &&& final(scenes)@[r as int]@ == (
                match stem {
                    Some(s) => s@,
                    None => CUSTOM_SCENE_NAME@,
                },
                Some(path@),
            )
        },
{
    match find_scene(scenes, resolved, wanted) {
        Some(i) => i,
        None => {
            let name = match stem {
                Some(s) => s,
                None => String::from_str(CUSTOM_SCENE_NAME),
            };
            let n = scenes.len();
            scenes.push(Scene { name, source: SceneSource::Glsl(path) });
            n
        },
    }
}

// ---------------------------------------------------------------------------
// Wallpaper process
// ---------------------------------------------------------------------------

/// The shader file of scene `selected`, when there is such a file scene.
pub open spec fn selected_shader(scenes: Seq<Scene>, selected: int) -> Option<Seq<char>> {
    if 0 <= selected < scenes.len() {
        scenes[selected]@.1
    } else {
        None
    }
}

/// Arguments that start a wallpaper process showing the given choice.
pub open spec fn spec_wallpaper_args(shader: Option<Seq<char>>, audio: AudioArg, gain: Seq<char>) -> Seq<
    Seq<char>,
> {
    seq!["--mode"@, "wallpaper"@] + match shader {
        Some(p) => seq!["--shader"@, p],
        None => Seq::empty(),
    } + seq!["--audio"@, spec_cli_name(audio), "--gain"@, gain]
}

/// Command-line arguments for a wallpaper process that shows scene
/// `selected` with the given audio source and gain (`gain_text`, the gain as
/// the caller prints it).
pub fn wallpaper_args(scenes: &Vec<Scene>, selected: usize, audio: AudioArg, gain_text: &str) -> (r: Vec<
    String,
>)
    ensures
        texts(r@) == spec_wallpaper_args(selected_shader(scenes@, selected as int), audio, gain_text@),
{
    let mut args: Vec<String> = Vec::new();
    args.push(String::from_str("--mode"));
    args.push(String::from_str("wallpaper"));
    if selected < scenes.len() {
        match &scenes[selected].source {
            SceneSource::Glsl(p) => {
                args.push(String::from_str("--shader"));
                args.push(p.clone());
            },
            SceneSource::Builtin => {},
        }
    }
    args.push(String::from_str("--audio"));
    args.push(String::from_str(audio.as_cli()));
    args.push(String::from_str("--gain"));
    args.push(String::from_str(gain_text));
    assert(texts(args@) =~= spec_wallpaper_args(selected_shader(scenes@, selected as int), audio, gain_text@));
    args
}

} // verus!
