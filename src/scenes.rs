//! The catalog of lighting scenes: each scene has one numeric id and one
//! display name, and two ordered subsets serve the white-only bulbs.
use vstd::prelude::*;

use crate::error::ModelError;
use crate::text::same_text;

verus! {

/// A lighting scene of the catalog.
#[derive(Debug, Clone, Copy, PartialEq, Eq, Structural)]
pub enum Scenes {
    Ocean,
    Romance,
    Sunset,
    Party,
    Fireplace,
    Cozy,
    Forest,
    PastelColors,
    Wakeup,
    Bedtime,
    WarmWhite,
    Daylight,
    CoolWhite,
    NighLight,
    Focus,
    Relax,
    Truecolors,
    TVtime,
    Plantgrowth,
    Spring,
    Summer,
    Fall,
    Deepdive,
    Jungle,
    Mojito,
    Club,
    Christmas,
    Halloween,
    Candlelight,
    GoldenWhite,
    Pulse,
    Steampunk,
    Rhythm,
}

/// Whether `id` names a scene of the catalog: 1 to 32, or 1000.
pub open spec fn is_scene_id(id: u32) -> bool {
    (1 <= id && id <= 32) || id == 1000
}

/// What a failed lookup by id says.
pub const SCENE_ID_DETAILS: &'static str = "Scene ID out of range. Expected 1-32 or 1000";

/// What a failed lookup by name says.
pub const SCENE_NAME_DETAILS: &'static str = "Scene name not found.";

/// The scene with the given id, if there is one.
pub open spec fn scene_of_id(id: u32) -> Option<Scenes> {
    match id {
        1 => Some(Scenes::Ocean),
        2 => Some(Scenes::Romance),
        3 => Some(Scenes::Sunset),
        4 => Some(Scenes::Party),
        5 => Some(Scenes::Fireplace),
        6 => Some(Scenes::Cozy),
        7 => Some(Scenes::Forest),
        8 => Some(Scenes::PastelColors),
        9 => Some(Scenes::Wakeup),
        10 => Some(Scenes::Bedtime),
        11 => Some(Scenes::WarmWhite),
        12 => Some(Scenes::Daylight),
        13 => Some(Scenes::CoolWhite),
        14 => Some(Scenes::NighLight),
        15 => Some(Scenes::Focus),
        16 => Some(Scenes::Relax),
        17 => Some(Scenes::Truecolors),
        18 => Some(Scenes::TVtime),
        19 => Some(Scenes::Plantgrowth),
        20 => Some(Scenes::Spring),
        21 => Some(Scenes::Summer),
        22 => Some(Scenes::Fall),
        23 => Some(Scenes::Deepdive),
        24 => Some(Scenes::Jungle),
        25 => Some(Scenes::Mojito),
        26 => Some(Scenes::Club),
        27 => Some(Scenes::Christmas),
        28 => Some(Scenes::Halloween),
        29 => Some(Scenes::Candlelight),
        30 => Some(Scenes::GoldenWhite),
        31 => Some(Scenes::Pulse),
        32 => Some(Scenes::Steampunk),
        1000 => Some(Scenes::Rhythm),
        _ => None,
    }
}

/// Every scene of the catalog, in order of id.
pub open spec fn catalog() -> Seq<Scenes> {
    seq![
        Scenes::Ocean,
        Scenes::Romance,
        Scenes::Sunset,
        Scenes::Party,
        Scenes::Fireplace,
        Scenes::Cozy,
        Scenes::Forest,
        Scenes::PastelColors,
        Scenes::Wakeup,
        Scenes::Bedtime,
        Scenes::WarmWhite,
        Scenes::Daylight,
        Scenes::CoolWhite,
        Scenes::NighLight,
        Scenes::Focus,
        Scenes::Relax,
        Scenes::Truecolors,
        Scenes::TVtime,
        Scenes::Plantgrowth,
        Scenes::Spring,
        Scenes::Summer,
        Scenes::Fall,
        Scenes::Deepdive,
        Scenes::Jungle,
        Scenes::Mojito,
        Scenes::Club,
        Scenes::Christmas,
        Scenes::Halloween,
        Scenes::Candlelight,
        Scenes::GoldenWhite,
        Scenes::Pulse,
        Scenes::Steampunk,
        Scenes::Rhythm,
    ]
}

/// The scene whose display name is `name`, if there is one.
pub open spec fn scene_of_name(name: Seq<char>) -> Option<Scenes> {
    if exists|s: Scenes| s.spec_name() == name {
        Some(choose|s: Scenes| s.spec_name() == name)
    } else {
        None
    }
}

/// The ids of the scenes that a tunable-white bulb can play, in their fixed order.
pub open spec fn tunable_white_ids() -> Seq<u32> {
    seq![6, 9, 10, 11, 12, 13, 14, 15, 16, 18, 29, 30, 31, 32]
}

/// The ids of the scenes that a dimmable-white bulb can play, in their fixed order.
pub open spec fn dimmable_white_ids() -> Seq<u32> {
    seq![9, 10, 13, 14, 29, 30, 31, 32]
}

/// The ids of a sequence of scenes.
pub open spec fn ids_of(v: Seq<Scenes>) -> Seq<u32> {
    v.map_values(|s: Scenes| s.spec_id())
}

impl Scenes {
    /// The scene's numeric id.
    pub open spec fn spec_id(self) -> u32 {
        match self {
            Scenes::Ocean => 1,
            Scenes::Romance => 2,
            Scenes::Sunset => 3,
            Scenes::Party => 4,
            Scenes::Fireplace => 5,
            Scenes::Cozy => 6,
            Scenes::Forest => 7,
            Scenes::PastelColors => 8,
            Scenes::Wakeup => 9,
            Scenes::Bedtime => 10,
            Scenes::WarmWhite => 11,
            Scenes::Daylight => 12,
            Scenes::CoolWhite => 13,
            Scenes::NighLight => 14,
            Scenes::Focus => 15,
            Scenes::Relax => 16,
            Scenes::Truecolors => 17,
            Scenes::TVtime => 18,
            Scenes::Plantgrowth => 19,
            Scenes::Spring => 20,
            Scenes::Summer => 21,
            Scenes::Fall => 22,
            Scenes::Deepdive => 23,
            Scenes::Jungle => 24,
            Scenes::Mojito => 25,
            Scenes::Club => 26,
            Scenes::Christmas => 27,
            Scenes::Halloween => 28,
            Scenes::Candlelight => 29,
            Scenes::GoldenWhite => 30,
            Scenes::Pulse => 31,
            Scenes::Steampunk => 32,
            Scenes::Rhythm => 1000,
        }
    }

    /// The scene's display name.
    pub open spec fn spec_name(self) -> Seq<char> {
        match self {
            Scenes::Ocean => "Ocean"@,
            Scenes::Romance => "Romance"@,
            Scenes::Sunset => "Sunset"@,
            Scenes::Party => "Party"@,
            Scenes::Fireplace => "Fireplace"@,
            Scenes::Cozy => "Cozy"@,
            Scenes::Forest => "Forest"@,
            Scenes::PastelColors => "Pastel Colors"@,
            Scenes::Wakeup => "Wake up"@,
            Scenes::Bedtime => "Bedtime"@,
            Scenes::WarmWhite => "Warm White"@,
            Scenes::Daylight => "Daylight"@,
            Scenes::CoolWhite => "Cool white"@,
            Scenes::NighLight => "Night light"@,
            Scenes::Focus => "Focus"@,
            Scenes::Relax => "Relax"@,
            Scenes::Truecolors => "True colors"@,
            Scenes::TVtime => "TV time"@,
            Scenes::Plantgrowth => "Plantgrowth"@,
            Scenes::Spring => "Spring"@,
            Scenes::Summer => "Summer"@,
            Scenes::Fall => "Fall"@,
            Scenes::Deepdive => "Deepdive"@,
            Scenes::Jungle => "Jungle"@,
            Scenes::Mojito => "Mojito"@,
            Scenes::Club => "Club"@,
            Scenes::Christmas => "Christmas"@,
            Scenes::Halloween => "Halloween"@,
            Scenes::Candlelight => "Candlelight"@,
            Scenes::GoldenWhite => "Golden white"@,
            Scenes::Pulse => "Pulse"@,
            Scenes::Steampunk => "Steampunk"@,
            Scenes::Rhythm => "Rhythm"@,
        }
    }

    /// The scene's numeric id.
    pub fn id(&self) -> (r: u32)
        ensures
            r == self.spec_id(),
    {
        match self {
            Scenes::Ocean => 1,
            Scenes::Romance => 2,
            Scenes::Sunset => 3,
            Scenes::Party => 4,
            Scenes::Fireplace => 5,
            Scenes::Cozy => 6,
            Scenes::Forest => 7,
            Scenes::PastelColors => 8,
            Scenes::Wakeup => 9,
            Scenes::Bedtime => 10,
            Scenes::WarmWhite => 11,
            Scenes::Daylight => 12,
            Scenes::CoolWhite => 13,
            Scenes::NighLight => 14,
            Scenes::Focus => 15,
            Scenes::Relax => 16,
            Scenes::Truecolors => 17,
            Scenes::TVtime => 18,
            Scenes::Plantgrowth => 19,
            Scenes::Spring => 20,
            Scenes::Summer => 21,
            Scenes::Fall => 22,
            Scenes::Deepdive => 23,
            Scenes::Jungle => 24,
            Scenes::Mojito => 25,
            Scenes::Club => 26,
            Scenes::Christmas => 27,
            Scenes::Halloween => 28,
            Scenes::Candlelight => 29,
            Scenes::GoldenWhite => 30,
            Scenes::Pulse => 31,
            Scenes::Steampunk => 32,
            Scenes::Rhythm => 1000,
        }
    }

    /// The scene's display name.
    pub fn name(&self) -> (r: &'static str)
        ensures
            r@ == self.spec_name(),
    {
        match self {
            Scenes::Ocean => "Ocean",
            Scenes::Romance => "Romance",
            Scenes::Sunset => "Sunset",
            Scenes::Party => "Party",
            Scenes::Fireplace => "Fireplace",
            Scenes::Cozy => "Cozy",
            Scenes::Forest => "Forest",
            Scenes::PastelColors => "Pastel Colors",
            Scenes::Wakeup => "Wake up",
            Scenes::Bedtime => "Bedtime",
            Scenes::WarmWhite => "Warm White",
            Scenes::Daylight => "Daylight",
            Scenes::CoolWhite => "Cool white",
            Scenes::NighLight => "Night light",
            Scenes::Focus => "Focus",
            Scenes::Relax => "Relax",
            Scenes::Truecolors => "True colors",
            Scenes::TVtime => "TV time",
            Scenes::Plantgrowth => "Plantgrowth",
            Scenes::Spring => "Spring",
            Scenes::Summer => "Summer",
            Scenes::Fall => "Fall",
            Scenes::Deepdive => "Deepdive",
            Scenes::Jungle => "Jungle",
            Scenes::Mojito => "Mojito",
            Scenes::Club => "Club",
            Scenes::Christmas => "Christmas",
            Scenes::Halloween => "Halloween",
            Scenes::Candlelight => "Candlelight",
            Scenes::GoldenWhite => "Golden white",
            Scenes::Pulse => "Pulse",
            Scenes::Steampunk => "Steampunk",
            Scenes::Rhythm => "Rhythm",
        }
    }

    /// The scene with the given id; fails on an id outside 1 to 32 and 1000.
    pub fn from_id(id: u32) -> (r: Result<Scenes, ModelError>)
        ensures
            r is Ok <==> is_scene_id(id),
            r matches Ok(s) ==> scene_of_id(id) == Some(s) && s.spec_id() == id,
            r matches Err(e) ==> e matches ModelError::SceneId { given_id, details }
                && given_id == id && details@ == SCENE_ID_DETAILS@,
    {
        match id {
            1 => Ok(Scenes::Ocean),
            2 => Ok(Scenes::Romance),
            3 => Ok(Scenes::Sunset),
            4 => Ok(Scenes::Party),
            5 => Ok(Scenes::Fireplace),
            6 => Ok(Scenes::Cozy),
            7 => Ok(Scenes::Forest),
            8 => Ok(Scenes::PastelColors),
            9 => Ok(Scenes::Wakeup),
            10 => Ok(Scenes::Bedtime),
            11 => Ok(Scenes::WarmWhite),
            12 => Ok(Scenes::Daylight),
            13 => Ok(Scenes::CoolWhite),
            14 => Ok(Scenes::NighLight),
            15 => Ok(Scenes::Focus),
            16 => Ok(Scenes::Relax),
            17 => Ok(Scenes::Truecolors),
            18 => Ok(Scenes::TVtime),
            19 => Ok(Scenes::Plantgrowth),
            20 => Ok(Scenes::Spring),
            21 => Ok(Scenes::Summer),
            22 => Ok(Scenes::Fall),
            23 => Ok(Scenes::Deepdive),
            24 => Ok(Scenes::Jungle),
            25 => Ok(Scenes::Mojito),
            26 => Ok(Scenes::Club),
            27 => Ok(Scenes::Christmas),
            28 => Ok(Scenes::Halloween),
            29 => Ok(Scenes::Candlelight),
            30 => Ok(Scenes::GoldenWhite),
            31 => Ok(Scenes::Pulse),
            32 => Ok(Scenes::Steampunk),
            1000 => Ok(Scenes::Rhythm),
            _ => Err(
                ModelError::SceneId { given_id: id, details: String::from_str(SCENE_ID_DETAILS) },
            ),
        }
    }

    /// The scene whose display name is exactly `name`.
    pub fn from_name(name: String) -> (r: Result<Scenes, ModelError>)
        ensures
            r is Ok <==> scene_of_name(name@) is Some,
            r matches Ok(s) ==> scene_of_name(name@) == Some(s) && s.spec_name() == name@,
            r matches Err(e) ==> e matches ModelError::SceneName { given_name, details }
                && given_name@ == name@ && details@ == SCENE_NAME_DETAILS@,
    {
        let all = all_scenes();
        let mut i: usize = 0;
        while i < all.len()
            invariant
                all@ == catalog(),
                i <= all@.len(),
                forall|k: int| 0 <= k < i ==> (#[trigger] all@[k]).spec_name() != name@,
            decreases all@.len() - i,
        {
            let scene = all[i];
            if same_text(scene.name(), name.as_str()) {
                proof {
                    lemma_scene_of_name(scene);
                }
                return Ok(scene);
            }
            i = i + 1;
        }
        proof {
            assert forall|s: Scenes| s.spec_name() != name@ by {
                lemma_catalog_holds(s);
            }
        }
        Err(ModelError::SceneName { given_name: name, details: String::from_str(SCENE_NAME_DETAILS) })
    }

    /// The scenes with the given ids, in the same order; fails on the first id that names none.
    fn get_scenes_list(list: Vec<u32>) -> (r: Result<Vec<Scenes>, ModelError>)
        ensures
            r is Ok <==> (forall|k: int| 0 <= k < list@.len() ==> is_scene_id(#[trigger] list@[k])),
            r matches Ok(v) ==> ids_of(v@) == list@,
            r matches Err(e) ==> e matches ModelError::SceneId { given_id, details }
                && details@ == SCENE_ID_DETAILS@
                && exists|k: int| 0 <= k < list@.len() && list@[k] == given_id
                    && !is_scene_id(given_id)
                    && forall|j: int| 0 <= j < k ==> is_scene_id(#[trigger] list@[j]),
    {
        let mut scenes: Vec<Scenes> = Vec::new();
        let mut i: usize = 0;
        while i < list.len()
            invariant
                i <= list@.len(),
                scenes@.len() == i,
                ids_of(scenes@) == list@.subrange(0, i as int),
                forall|j: int| 0 <= j < i ==> is_scene_id(#[trigger] list@[j]),
            decreases list@.len() - i,
        {
            match Scenes::from_id(list[i]) {
                Ok(scene) => {
                    let ghost before = scenes@;
                    scenes.push(scene);
                    assert forall|k: int| 0 <= k < i implies ids_of(scenes@)[k] == ids_of(before)[k] by {
                        assert(scenes@[k] == before[k]);
                    }
                    assert(ids_of(scenes@) =~= list@.subrange(0, i + 1));
                },
                Err(e) => {
                    return Err(e);
                },
            }
            i = i + 1;
        }
        assert(list@.subrange(0, i as int) =~= list@);
        Ok(scenes)
    }

    /// The scenes that a tunable-white bulb can play, in their fixed order.
    pub fn get_tunable_white_scenes() -> (r: Result<Vec<Scenes>, ModelError>)
        ensures
            r matches Ok(v) && ids_of(v@) == tunable_white_ids() && v@.len() == tunable_white_ids().len(),
    {
        let tunable_white_scenes: Vec<u32> = vec![6, 9, 10, 11, 12, 13, 14, 15, 16, 18, 29, 30, 31, 32];
        assert(tunable_white_scenes@ == tunable_white_ids());
        Scenes::get_scenes_list(tunable_white_scenes)
    }

    /// The scenes that a dimmable-white bulb can play, in their fixed order.
    pub fn get_dimmable_white_scenes() -> (r: Result<Vec<Scenes>, ModelError>)
        ensures
            r matches Ok(v) && ids_of(v@) == dimmable_white_ids() && v@.len() == dimmable_white_ids().len(),
    {
        let dimmable_white_scenes: Vec<u32> = vec![9, 10, 13, 14, 29, 30, 31, 32];
        assert(dimmable_white_scenes@ == dimmable_white_ids());
        Scenes::get_scenes_list(dimmable_white_scenes)
    }
}

/// Every scene of the catalog, in order of id.
fn all_scenes() -> (r: Vec<Scenes>)
    ensures
        r@ == catalog(),
{
    let r = vec![
        Scenes::Ocean,
        Scenes::Romance,
        Scenes::Sunset,
        Scenes::Party,
        Scenes::Fireplace,
        Scenes::Cozy,
        Scenes::Forest,
        Scenes::PastelColors,
        Scenes::Wakeup,
        Scenes::Bedtime,
        Scenes::WarmWhite,
        Scenes::Daylight,
        Scenes::CoolWhite,
        Scenes::NighLight,
        Scenes::Focus,
        Scenes::Relax,
        Scenes::Truecolors,
        Scenes::TVtime,
        Scenes::Plantgrowth,
        Scenes::Spring,
        Scenes::Summer,
        Scenes::Fall,
        Scenes::Deepdive,
        Scenes::Jungle,
        Scenes::Mojito,
        Scenes::Club,
        Scenes::Christmas,
        Scenes::Halloween,
        Scenes::Candlelight,
        Scenes::GoldenWhite,
        Scenes::Pulse,
        Scenes::Steampunk,
        Scenes::Rhythm,
    ];
    assert(r@ == catalog());
    r
}

/// Where a scene stands in the catalog.
pub open spec fn catalog_index(s: Scenes) -> int {
    if s.spec_id() == 1000 {
        32
    } else {
        s.spec_id() - 1
    }
}

/// Every scene stands in the catalog at its index.
proof fn lemma_catalog_holds(s: Scenes)
    ensures
        0 <= catalog_index(s) < catalog().len(),
        catalog()[catalog_index(s)] == s,
{
}

/// A scene's display name picks out that scene.
proof fn lemma_scene_of_name(s: Scenes)
    ensures
        scene_of_name(s.spec_name()) == Some(s),
{
    let t = choose|t: Scenes| t.spec_name() == s.spec_name();
    lemma_names_distinct(t, s);
}

/// The scene picked out by a name's length and its first and third characters,
/// which tell the catalog's names apart.
spec fn scene_of_key(len: nat, first: char, third: char) -> Scenes {
    if len == 5 && first == 'O' && third == 'e' {
        Scenes::Ocean
    } else if len == 7 && first == 'R' && third == 'm' {
        Scenes::Romance
    } else if len == 6 && first == 'S' && third == 'n' {
        Scenes::Sunset
    } else if len == 5 && first == 'P' && third == 'r' {
        Scenes::Party
    } else if len == 9 && first == 'F' && third == 'r' {
        Scenes::Fireplace
    } else if len == 4 && first == 'C' && third == 'z' {
        Scenes::Cozy
    } else if len == 6 && first == 'F' && third == 'r' {
        Scenes::Forest
    } else if len == 13 && first == 'P' && third == 's' {
        Scenes::PastelColors
    } else if len == 7 && first == 'W' && third == 'k' {
        Scenes::Wakeup
    } else if len == 7 && first == 'B' && third == 'd' {
        Scenes::Bedtime
    } else if len == 10 && first == 'W' && third == 'r' {
        Scenes::WarmWhite
    } else if len == 8 && first == 'D' && third == 'y' {
        Scenes::Daylight
    } else if len == 10 && first == 'C' && third == 'o' {
        Scenes::CoolWhite
    } else if len == 11 && first == 'N' && third == 'g' {
        Scenes::NighLight
    } else if len == 5 && first == 'F' && third == 'c' {
        Scenes::Focus
    } else if len == 5 && first == 'R' && third == 'l' {
        Scenes::Relax
    } else if len == 11 && first == 'T' && third == 'u' {
        Scenes::Truecolors
    } else if len == 7 && first == 'T' && third == ' ' {
        Scenes::TVtime
    } else if len == 11 && first == 'P' && third == 'a' {
        Scenes::Plantgrowth
    } else if len == 6 && first == 'S' && third == 'r' {
        Scenes::Spring
    } else if len == 6 && first == 'S' && third == 'm' {
        Scenes::Summer
    } else if len == 4 && first == 'F' && third == 'l' {
        Scenes::Fall
    } else if len == 8 && first == 'D' && third == 'e' {
        Scenes::Deepdive
    } else if len == 6 && first == 'J' && third == 'n' {
        Scenes::Jungle
    } else if len == 6 && first == 'M' && third == 'j' {
        Scenes::Mojito
    } else if len == 4 && first == 'C' && third == 'u' {
        Scenes::Club
    } else if len == 9 && first == 'C' && third == 'r' {
        Scenes::Christmas
    } else if len == 9 && first == 'H' && third == 'l' {
        Scenes::Halloween
    } else if len == 11 && first == 'C' && third == 'n' {
        Scenes::Candlelight
    } else if len == 12 && first == 'G' && third == 'l' {
        Scenes::GoldenWhite
    } else if len == 5 && first == 'P' && third == 'l' {
        Scenes::Pulse
    } else if len == 9 && first == 'S' && third == 'e' {
        Scenes::Steampunk
    } else {
        Scenes::Rhythm
    }
}

/// Each display name's key leads back to its scene.
proof fn lemma_key_of_name(s: Scenes)
    ensures
        s.spec_name().len() >= 3,
        scene_of_key(s.spec_name().len(), s.spec_name()[0], s.spec_name()[2]) == s,
{
    match s {
        Scenes::Ocean => {
            reveal_strlit("Ocean");
        },
        Scenes::Romance => {
            reveal_strlit("Romance");
        },
        Scenes::Sunset => {
            reveal_strlit("Sunset");
        },
        Scenes::Party => {
            reveal_strlit("Party");
        },
        Scenes::Fireplace => {
            reveal_strlit("Fireplace");
        },
        Scenes::Cozy => {
            reveal_strlit("Cozy");
        },
        Scenes::Forest => {
            reveal_strlit("Forest");
        },
        Scenes::PastelColors => {
            reveal_strlit("Pastel Colors");
        },
        Scenes::Wakeup => {
            reveal_strlit("Wake up");
        },
        Scenes::Bedtime => {
            reveal_strlit("Bedtime");
        },
        Scenes::WarmWhite => {
            reveal_strlit("Warm White");
        },
        Scenes::Daylight => {
            reveal_strlit("Daylight");
        },
        Scenes::CoolWhite => {
            reveal_strlit("Cool white");
        },
        Scenes::NighLight => {
            reveal_strlit("Night light");
        },
        Scenes::Focus => {
            reveal_strlit("Focus");
        },
        Scenes::Relax => {
            reveal_strlit("Relax");
        },
        Scenes::Truecolors => {
            reveal_strlit("True colors");
        },
        Scenes::TVtime => {
            reveal_strlit("TV time");
        },
        Scenes::Plantgrowth => {
            reveal_strlit("Plantgrowth");
        },
        Scenes::Spring => {
            reveal_strlit("Spring");
        },
        Scenes::Summer => {
            reveal_strlit("Summer");
        },
        Scenes::Fall => {
            reveal_strlit("Fall");
        },
        Scenes::Deepdive => {
            reveal_strlit("Deepdive");
        },
        Scenes::Jungle => {
            reveal_strlit("Jungle");
        },
        Scenes::Mojito => {
            reveal_strlit("Mojito");
        },
        Scenes::Club => {
            reveal_strlit("Club");
        },
        Scenes::Christmas => {
            reveal_strlit("Christmas");
        },
        Scenes::Halloween => {
            reveal_strlit("Halloween");
        },
        Scenes::Candlelight => {
            reveal_strlit("Candlelight");
        },
        Scenes::GoldenWhite => {
            reveal_strlit("Golden white");
        },
        Scenes::Pulse => {
            reveal_strlit("Pulse");
        },
        Scenes::Steampunk => {
            reveal_strlit("Steampunk");
        },
        Scenes::Rhythm => {
            reveal_strlit("Rhythm");
        },
    }
}

/// Distinct scenes have distinct display names.
pub proof fn lemma_names_distinct(a: Scenes, b: Scenes)
    requires
        a.spec_name() == b.spec_name(),
    ensures
        a == b,
{
    lemma_key_of_name(a);
    lemma_key_of_name(b);
}

/// Each id of the catalog names a scene that carries that id, and the scene's
/// display name leads back to the same scene, hence to the same id.
pub proof fn lemma_id_round_trip(id: u32)
    requires
        is_scene_id(id),
    ensures
        scene_of_id(id) matches Some(s) && s.spec_id() == id && scene_of_name(s.spec_name())
            == Some(s),
{
    let s = scene_of_id(id)->Some_0;
    lemma_scene_of_name(s);
}

/// Each scene's id is an id of the catalog, and it names that scene back; so
/// does the scene's display name.
pub proof fn lemma_scene_round_trip(s: Scenes)
    ensures
        is_scene_id(s.spec_id()),
        scene_of_id(s.spec_id()) == Some(s),
        scene_of_name(s.spec_name()) == Some(s),
{
    lemma_scene_of_name(s);
}

} // verus!
