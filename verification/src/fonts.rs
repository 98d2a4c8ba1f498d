//! The fonts the UI chrome loads: the configured families the system font database has, in the
//! configured priority order, under the names the UI registers them by.
use vstd::prelude::*;
use crate::text::push_str;

verus! {

/// The system font database (fontdb's `Database`).
#[verifier::external_type_specification]
#[verifier::external_body]
pub struct ExFontDatabase(fontdb::Database);

/// A face in the font database (fontdb's `ID`).
#[verifier::external_type_specification]
#[verifier::external_body]
pub struct ExFaceId(fontdb::ID);

/// The family names of the faces loaded into `db`.
pub uninterp spec fn db_family_names(db: fontdb::Database) -> Set<Seq<char>>;

/// The face `db` picks for the family `family`, if it has one.
pub uninterp spec fn db_query_family(db: fontdb::Database, family: Seq<char>) -> Option<fontdb::ID>;

/// The best face of the family `family` in `db` (fontdb's `Database::query` with only the family
/// set). The result is a function of the database and the family name; it finds a face exactly
/// when some face in the database has a family of that name. Which of that family's faces it
/// picks (by stretch, style and weight) is not stated beyond the name.
#[verifier::external_body]
fn query_family(db: &fontdb::Database, family: &str) -> (r: Option<fontdb::ID>)
    ensures
        r == db_query_family(*db, family@),
        r is Some <==> db_family_names(*db).contains(family@),
{
    let families = [fontdb::Family::Name(family)];
    db.query(&fontdb::Query { families: &families, ..fontdb::Query::default() })
}

/// The name the UI registers a configured family's face under.
pub open spec fn ui_font_name(family: Seq<char>) -> Seq<char> {
    "bootty-ui-"@ + family
}

/// The registered names of the families that were found, highest priority first: the
/// configured order, the families without a face left out.
pub open spec fn ui_font_names(families: Seq<String>, found: Seq<bool>) -> Seq<Seq<char>>
    decreases families.len(),
{
    if families.len() == 0 || found.len() == 0 {
        Seq::empty()
    } else {
        let rest = ui_font_names(families.drop_last(), found.drop_last());
        if found.last() {
            rest.push(ui_font_name(families.last()@))
        } else {
            rest
        }
    }
}

/// The registered names for the families, given which of them the database has (see
/// `ui_font_names`).
pub fn ui_font_order(families: &[String], found: &[bool]) -> (r: Vec<String>)
    requires
        found@.len() == families@.len(),
    ensures
        r@.len() == ui_font_names(families@, found@).len(),
        forall|k: int| 0 <= k < r@.len() ==> #[trigger] r@[k]@ == ui_font_names(families@, found@)[k],
{
    let mut out: Vec<String> = Vec::new();
    let mut i: usize = 0;
    while i < families.len()
        invariant
            found@.len() == families@.len(),
            i <= families@.len(),
            out@.len() == ui_font_names(
                families@.subrange(0, i as int),
                found@.subrange(0, i as int),
            ).len(),
            forall|k: int|
                0 <= k < out@.len() ==> #[trigger] out@[k]@ == ui_font_names(
                    families@.subrange(0, i as int),
                    found@.subrange(0, i as int),
                )[k],
        decreases families@.len() - i,
    {
        proof {
            assert(families@.subrange(0, i + 1).drop_last() =~= families@.subrange(0, i as int));
            assert(found@.subrange(0, i + 1).drop_last() =~= found@.subrange(0, i as int));
        }
        if found[i] {
            let mut name = String::new();
            push_str(&mut name, "bootty-ui-");
            push_str(&mut name, families[i].as_str());
            out.push(name);
        }
        i = i + 1;
    }
    proof {
        assert(families@.subrange(0, families@.len() as int) =~= families@);
        assert(found@.subrange(0, found@.len() as int) =~= found@);
    }
    out
}

/// A face to load for the UI and the name to register it under.
pub struct UiFace {
    pub name: String,
    pub face: fontdb::ID,
}

/// The faces to load, highest priority first: for each configured family the database had a
/// face for, in the configured order, its registered name and that face.
pub open spec fn found_faces(families: Seq<String>, found: Seq<Option<fontdb::ID>>) -> Seq<
    (Seq<char>, fontdb::ID),
>
    decreases families.len(),
{
    if families.len() == 0 || found.len() == 0 {
        Seq::empty()
    } else {
        let rest = found_faces(families.drop_last(), found.drop_last());
        match found.last() {
            Some(id) => rest.push((ui_font_name(families.last()@), id)),
            None => rest,
        }
    }
}

/// The faces for the families, given what the database found for each (see `found_faces`).
pub fn ui_faces_from_results(families: &[String], found: &[Option<fontdb::ID>]) -> (r: Vec<UiFace>)
    requires
        found@.len() == families@.len(),
    ensures
        r@.len() == found_faces(families@, found@).len(),
        forall|k: int|
            0 <= k < r@.len() ==> (#[trigger] r@[k]).name@ == found_faces(families@, found@)[k].0
                && r@[k].face == found_faces(families@, found@)[k].1,
{
    let mut out: Vec<UiFace> = Vec::new();
    let mut i: usize = 0;
    while i < families.len()
        invariant
            found@.len() == families@.len(),
            i <= families@.len(),
            out@.len() == found_faces(families@.subrange(0, i as int), found@.subrange(0, i as int)).len(),
            forall|k: int|
                0 <= k < out@.len() ==> (#[trigger] out@[k]).name@ == found_faces(
                    families@.subrange(0, i as int),
                    found@.subrange(0, i as int),
                )[k].0 && out@[k].face == found_faces(
                    families@.subrange(0, i as int),
                    found@.subrange(0, i as int),
                )[k].1,
        decreases families@.len() - i,
    {
        proof {
            assert(families@.subrange(0, i + 1).drop_last() =~= families@.subrange(0, i as int));
            assert(found@.subrange(0, i + 1).drop_last() =~= found@.subrange(0, i as int));
        }
        match found[i] {
            Some(id) => {
                let mut name = String::new();
                push_str(&mut name, "bootty-ui-");
                push_str(&mut name, families[i].as_str());
                out.push(UiFace { name, face: id });
            },
            None => {},
        }
        i = i + 1;
    }
    proof {
        assert(families@.subrange(0, families@.len() as int) =~= families@);
        assert(found@.subrange(0, found@.len() as int) =~= found@);
    }
    out
}

/// What the database finds for each family, in order.
pub open spec fn family_query_results(db: fontdb::Database, families: Seq<String>) -> Seq<
    Option<fontdb::ID>,
> {
    Seq::new(families.len(), |j: int| db_query_family(db, families[j]@))
}

/// Looks each configured family up in the font database and lists the faces to load: each
/// family the database has, in the configured order, under its registered name with the face
/// the database picked for that family; the families it lacks are left out.
pub fn ui_font_plan(db: &fontdb::Database, families: &[String]) -> (r: Vec<UiFace>)
    ensures
        forall|j: int|
            0 <= j < families@.len() ==> ((#[trigger] family_query_results(*db, families@)[j]) is Some
                <==> db_family_names(*db).contains(families@[j]@)),
        r@.len() == found_faces(families@, family_query_results(*db, families@)).len(),
        forall|k: int|
            0 <= k < r@.len() ==> (#[trigger] r@[k]).name@ == found_faces(
                families@,
                family_query_results(*db, families@),
            )[k].0 && r@[k].face == found_faces(families@, family_query_results(*db, families@))[k].1,
{
    let mut found: Vec<Option<fontdb::ID>> = Vec::new();
    let mut i: usize = 0;
    while i < families.len()
        invariant
            i <= families@.len(),
            found@.len() == i,
            forall|j: int|
                0 <= j < i ==> (#[trigger] found@[j]) == db_query_family(*db, families@[j]@)
                    && (found@[j] is Some <==> db_family_names(*db).contains(families@[j]@)),
        decreases families@.len() - i,
    {
        found.push(query_family(db, families[i].as_str()));
        i = i + 1;
    }
    assert(found@ =~= family_query_results(*db, families@));
    ui_faces_from_results(families, found.as_slice())
}

/// Makes the registered UI faces a text style's first choices: `names` in their order, ahead of
/// the fonts the style already had.
pub fn put_ui_fonts_first(fonts: &mut Vec<String>, names: &[String])
    ensures
        final(fonts)@ == names@ + old(fonts)@,
{
    let mut i: usize = names.len();
    while i > 0
        invariant
            i <= names@.len(),
            fonts@ == names@.subrange(i as int, names@.len() as int) + old(fonts)@,
        decreases i,
    {
        i = i - 1;
        fonts.insert(0, names[i].clone());
        assert(fonts@ =~= names@.subrange(i as int, names@.len() as int) + old(fonts)@);
    }
    assert(names@.subrange(0, names@.len() as int) =~= names@);
}

} // verus!
