use real_live_wall::config::AudioArg;
use real_live_wall::scenes::{
    discover_scenes, find_scene, select_initial_scene, wallpaper_args, Scene, SceneSource,
    BUILTIN_SCENE_NAME, CUSTOM_SCENE_NAME, SHADER_DIR,
};

fn names(v: &[&str]) -> Vec<String> {
    v.iter().map(|s| s.to_string()).collect()
}

fn path_of(s: &Scene) -> Option<String> {
    match &s.source {
        SceneSource::Builtin => None,
        SceneSource::Glsl(p) => Some(p.clone()),
    }
}

#[test]
fn builtin_scene_alone_without_files() {
    let scenes = discover_scenes(&Vec::new(), '/');
    assert_eq!(scenes.len(), 1);
    assert_eq!(scenes[0].name, BUILTIN_SCENE_NAME);
    assert!(path_of(&scenes[0]).is_none());
}

#[test]
fn glsl_files_sorted_by_name_after_builtin() {
    let scenes = discover_scenes(&names(&["waves.glsl", "notes.txt", "aurora.glsl", "Zed.glsl", "b.GLSL"]), '/');
    let got: Vec<(String, Option<String>)> =
        scenes.iter().map(|s| (s.name.clone(), path_of(s))).collect();
    assert_eq!(
        got,
        vec![
            (BUILTIN_SCENE_NAME.to_string(), None),
            ("Zed".to_string(), Some(format!("{}/Zed.glsl", SHADER_DIR))),
            ("aurora".to_string(), Some(format!("{}/aurora.glsl", SHADER_DIR))),
            ("waves".to_string(), Some(format!("{}/waves.glsl", SHADER_DIR))),
        ]
    );
}

#[test]
fn extension_follows_the_last_dot() {
    let scenes = discover_scenes(&names(&[".glsl", "a.b.glsl", "c.glsl.bak", "d.glsl", "e.glsl."]), '/');
    let got: Vec<String> = scenes.iter().skip(1).map(|s| s.name.clone()).collect();
    assert_eq!(got, vec!["a.b".to_string(), "d".to_string()]);
}

#[test]
fn prefix_sorts_first_and_non_ascii_by_code_point() {
    let scenes = discover_scenes(&names(&["ab.glsl", "a.glsl", "é.glsl", "z.glsl"]), '/');
    let got: Vec<String> = scenes.iter().skip(1).map(|s| s.name.clone()).collect();
    // '.' (0x2E) sorts before 'b', so "a.glsl" precedes "ab.glsl".
    assert_eq!(got, vec!["a", "ab", "z", "é"]);
}

#[test]
fn find_scene_matches_resolved_paths_of_files_only() {
    let scenes = discover_scenes(&names(&["a.glsl", "b.glsl"]), '/');
    let resolved = vec![None, Some("/x/a.glsl".to_string()), Some("/x/b.glsl".to_string())];
    assert_eq!(find_scene(&scenes, &resolved, &Some("/x/b.glsl".to_string())), Some(2));
    assert_eq!(find_scene(&scenes, &resolved, &Some("/x/c.glsl".to_string())), None);
    // The built-in scene never matches, even when neither side resolves.
    let unresolved = vec![None, None, None];
    assert_eq!(find_scene(&scenes, &unresolved, &None), Some(1));
}

#[test]
fn select_initial_scene_appends_unknown_file() {
    let mut scenes = discover_scenes(&names(&["a.glsl"]), '/');
    let resolved = vec![None, Some("/x/a.glsl".to_string())];
    let i = select_initial_scene(&mut scenes, &resolved, &Some("/y/mine.glsl".to_string()),
        "/y/mine.glsl".to_string(), Some("mine".to_string()));
    assert_eq!(i, 2);
    assert_eq!(scenes.len(), 3);
    assert_eq!(scenes[2].name, "mine");
    assert_eq!(path_of(&scenes[2]), Some("/y/mine.glsl".to_string()));

    let mut scenes = discover_scenes(&names(&["a.glsl"]), '/');
    let i = select_initial_scene(&mut scenes, &resolved, &Some("/x/a.glsl".to_string()),
        "shaders/a.glsl".to_string(), Some("a".to_string()));
    assert_eq!(i, 1);
    assert_eq!(scenes.len(), 2);

    let mut scenes = discover_scenes(&Vec::new(), '/');
    let i = select_initial_scene(&mut scenes, &vec![None], &None, "..".to_string(), None);
    assert_eq!(i, 1);
    assert_eq!(scenes[1].name, CUSTOM_SCENE_NAME);
}

#[test]
fn wallpaper_args_carry_scene_audio_and_gain() {
    let scenes = discover_scenes(&names(&["a.glsl"]), '/');
    let args = wallpaper_args(&scenes, 1, AudioArg::Input, "1.5");
    assert_eq!(
        args,
        vec!["--mode", "wallpaper", "--shader", "shaders/a.glsl", "--audio", "input", "--gain", "1.5"]
    );
    let args = wallpaper_args(&scenes, 0, AudioArg::Off, "1");
    assert_eq!(args, vec!["--mode", "wallpaper", "--audio", "off", "--gain", "1"]);
    let args = wallpaper_args(&scenes, 7, AudioArg::Loopback, "2");
    assert_eq!(args, vec!["--mode", "wallpaper", "--audio", "loopback", "--gain", "2"]);
}

#[test]
fn scene_paths_use_the_given_separator() {
    let scenes = discover_scenes(&names(&["x.glsl"]), '\\');
    assert_eq!(path_of(&scenes[1]), Some("shaders\\x.glsl".to_string()));
}
