use bootty_app::fonts::{put_ui_fonts_first, ui_faces_from_results, ui_font_order, ui_font_plan};

#[test]
fn found_families_keep_their_priority_under_ui_names() {
    let families = vec!["Inter".to_owned(), "Missing".to_owned(), "Fira Sans".to_owned()];
    assert_eq!(
        ui_font_order(&families, &[true, false, true]),
        vec!["bootty-ui-Inter".to_owned(), "bootty-ui-Fira Sans".to_owned()]
    );
    assert!(ui_font_order(&families, &[false, false, false]).is_empty());
}

#[test]
fn an_empty_font_database_yields_no_ui_faces() {
    let db = fontdb::Database::new();
    let plan = ui_font_plan(&db, &["Inter".to_owned(), "Menlo".to_owned()]);
    assert!(plan.is_empty());
}

#[test]
fn each_found_face_is_registered_under_its_own_family() {
    let mut db = fontdb::Database::new();
    let families = vec!["Inter".to_owned(), "Missing".to_owned(), "Fira Sans".to_owned()];
    let first = fontdb::ID::default();
    db.push_face_info(fontdb::FaceInfo {
        id: first,
        source: fontdb::Source::Binary(std::sync::Arc::new(Vec::<u8>::new())),
        index: 0,
        families: vec![("Fira Sans".to_owned(), fontdb::Language::English_UnitedStates)],
        post_script_name: "FiraSans".to_owned(),
        style: fontdb::Style::Normal,
        weight: fontdb::Weight::NORMAL,
        stretch: fontdb::Stretch::Normal,
        monospaced: false,
    });
    let fira = db.faces().next().unwrap().id;
    let faces = ui_faces_from_results(&families, &[Some(first), None, Some(fira)]);
    assert_eq!(faces.len(), 2);
    assert_eq!(faces[0].name, "bootty-ui-Inter");
    assert_eq!(faces[0].face, first);
    assert_eq!(faces[1].name, "bootty-ui-Fira Sans");
    assert_eq!(faces[1].face, fira);

    let plan = ui_font_plan(&db, &families);
    assert_eq!(plan.len(), 1);
    assert_eq!(plan[0].name, "bootty-ui-Fira Sans");
    assert_eq!(plan[0].face, fira);
}

#[test]
fn ui_faces_become_the_first_choice_in_their_order() {
    let mut fonts = vec!["Hack".to_owned(), "emoji".to_owned()];
    put_ui_fonts_first(&mut fonts, &["bootty-ui-Inter".to_owned(), "bootty-ui-Fira Sans".to_owned()]);
    assert_eq!(fonts, vec!["bootty-ui-Inter", "bootty-ui-Fira Sans", "Hack", "emoji"]);
    put_ui_fonts_first(&mut fonts, &[]);
    assert_eq!(fonts.len(), 4);
}

fn face_named(family: &str) -> fontdb::FaceInfo {
    fontdb::FaceInfo {
        id: fontdb::ID::default(),
        source: fontdb::Source::Binary(std::sync::Arc::new(Vec::<u8>::new())),
        index: 0,
        families: vec![(family.to_owned(), fontdb::Language::English_UnitedStates)],
        post_script_name: family.replace(' ', ""),
        style: fontdb::Style::Normal,
        weight: fontdb::Weight::NORMAL,
        stretch: fontdb::Stretch::Normal,
        monospaced: false,
    }
}

#[test]
fn each_family_gets_the_face_the_database_picks_for_it() {
    let mut db = fontdb::Database::new();
    let fira = db.push_face_info(face_named("Fira Sans"));
    let inter = db.push_face_info(face_named("Inter"));
    let families = vec!["Inter".to_owned(), "Missing".to_owned(), "Fira Sans".to_owned()];
    let plan = ui_font_plan(&db, &families);
    assert_eq!(plan.len(), 2);
    assert_eq!(plan[0].name, "bootty-ui-Inter");
    assert_eq!(plan[0].face, inter);
    assert_eq!(plan[1].name, "bootty-ui-Fira Sans");
    assert_eq!(plan[1].face, fira);
}
