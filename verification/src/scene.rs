//! The catalogue of built-in lighting scenes.
//!
//! A scene has a number and a display name. The catalogue is fixed: the
//! numbers 1 to 32, and 1000. Each kind of white light has its own list of
//! the scenes that it can show.

use crate::errors::SceneError;
use crate::outside::text_eq;
use vstd::prelude::*;

verus! {

/// A built-in scene.
#[derive(Debug, Clone, Copy, PartialEq, Eq, Structural)]
pub enum Scenes {
    Ocean,
    Romance,
    Sunset,
    Party,
    Fireplace,
    Cozy,
    Forest,
    PastelColors,
    Wakeup,
    Bedtime,
    WarmWhite,
    Daylight,
    CoolWhite,
    NighLight,
    Focus,
    Relax,
    Truecolors,
    TVtime,
    Plantgrowth,
    Spring,
    Summer,
    Fall,
    Deepdive,
    Jungle,
    Mojito,
    Club,
    Christmas,
    Halloween,
    Candlelight,
    GoldenWhite,
    Pulse,
    Steampunk,
    Rhythm,
}

impl Scenes {
    /// The number of the scene.
    pub open spec fn spec_id(&self) -> u32 {
        match self {
            Scenes::Ocean => 1,
            Scenes::Romance => 2,
            Scenes::Sunset => 3,
            Scenes::Party => 4,
            Scenes::Fireplace => 5,
            Scenes::Cozy => 6,
            Scenes::Forest => 7,
            Scenes::PastelColors => 8,
            Scenes::Wakeup => 9,
            Scenes::Bedtime => 10,
            Scenes::WarmWhite => 11,
            Scenes::Daylight => 12,
            Scenes::CoolWhite => 13,
            Scenes::NighLight => 14,
            Scenes::Focus => 15,
            Scenes::Relax => 16,
            Scenes::Truecolors => 17,
            Scenes::TVtime => 18,
            Scenes::Plantgrowth => 19,
            Scenes::Spring => 20,
            Scenes::Summer => 21,
            Scenes::Fall => 22,
            Scenes::Deepdive => 23,
            Scenes::Jungle => 24,
            Scenes::Mojito => 25,
            Scenes::Club => 26,
            Scenes::Christmas => 27,
            Scenes::Halloween => 28,
            Scenes::Candlelight => 29,
            Scenes::GoldenWhite => 30,
            Scenes::Pulse => 31,
            Scenes::Steampunk => 32,
            Scenes::Rhythm => 1000,
        }
    }

    /// The display name of the scene.
    pub open spec fn spec_name(&self) -> Seq<char> {
        match self {
            Scenes::Ocean => "Ocean"@,
            Scenes::Romance => "Romance"@,
            Scenes::Sunset => "Sunset"@,
            Scenes::Party => "Party"@,
            Scenes::Fireplace => "Fireplace"@,
            Scenes::Cozy => "Cozy"@,
            Scenes::Forest => "Forest"@,
            Scenes::PastelColors => "Pastel Colors"@,
            Scenes::Wakeup => "Wake up"@,
            Scenes::Bedtime => "Bedtime"@,
            Scenes::WarmWhite => "Warm White"@,
            Scenes::Daylight => "Daylight"@,
            Scenes::CoolWhite => "Cool white"@,
            Scenes::NighLight => "Night light"@,
            Scenes::Focus => "Focus"@,
            Scenes::Relax => "Relax"@,
            Scenes::Truecolors => "True colors"@,
            Scenes::TVtime => "TV time"@,
            Scenes::Plantgrowth => "Plantgrowth"@,
            Scenes::Spring => "Spring"@,
            Scenes::Summer => "Summer"@,
            Scenes::Fall => "Fall"@,
            Scenes::Deepdive => "Deepdive"@,
            Scenes::Jungle => "Jungle"@,
            Scenes::Mojito => "Mojito"@,
            Scenes::Club => "Club"@,
            Scenes::Christmas => "Christmas"@,
            Scenes::Halloween => "Halloween"@,
            Scenes::Candlelight => "Candlelight"@,
            Scenes::GoldenWhite => "Golden white"@,
            Scenes::Pulse => "Pulse"@,
            Scenes::Steampunk => "Steampunk"@,
            Scenes::Rhythm => "Rhythm"@,
        }
    }

    /// The scene with the given number, if the catalogue has one.
    pub open spec fn spec_from_id(id: u32) -> Option<Scenes> {
        if 1 <= id <= 32 || id == 1000 {
            Some(choose|s: Scenes| s.spec_id() == id)
        } else {
            None
        }
    }

    /// The scenes that tunable white light can show, in the order of their
    /// numbers.
    pub open spec fn spec_tunable_white() -> Seq<Scenes> {
        seq![
            Scenes::Cozy,
            Scenes::Wakeup,
            Scenes::Bedtime,
            Scenes::WarmWhite,
            Scenes::Daylight,
            Scenes::CoolWhite,
            Scenes::NighLight,
            Scenes::Focus,
            Scenes::Relax,
            Scenes::TVtime,
            Scenes::Candlelight,
            Scenes::GoldenWhite,
            Scenes::Pulse,
            Scenes::Steampunk,
        ]
    }

    /// The scenes that dimmable white light can show, in the order of their
    /// numbers.
    pub open spec fn spec_dimmable_white() -> Seq<Scenes> {
        seq![
            Scenes::Wakeup,
            Scenes::Bedtime,
            Scenes::CoolWhite,
            Scenes::NighLight,
            Scenes::Candlelight,
            Scenes::GoldenWhite,
            Scenes::Pulse,
            Scenes::Steampunk,
        ]
    }

    /// The number of the scene.
    pub fn id(&self) -> (id: u32)
        ensures
            id == self.spec_id(),
            1 <= id <= 32 || id == 1000,
    {
        match self {
            Scenes::Ocean => 1,
            Scenes::Romance => 2,
            Scenes::Sunset => 3,
            Scenes::Party => 4,
            Scenes::Fireplace => 5,
            Scenes::Cozy => 6,
            Scenes::Forest => 7,
            Scenes::PastelColors => 8,
            Scenes::Wakeup => 9,
            Scenes::Bedtime => 10,
            Scenes::WarmWhite => 11,
            Scenes::Daylight => 12,
            Scenes::CoolWhite => 13,
            Scenes::NighLight => 14,
            Scenes::Focus => 15,
            Scenes::Relax => 16,
            Scenes::Truecolors => 17,
            Scenes::TVtime => 18,
            Scenes::Plantgrowth => 19,
            Scenes::Spring => 20,
            Scenes::Summer => 21,
            Scenes::Fall => 22,
            Scenes::Deepdive => 23,
            Scenes::Jungle => 24,
            Scenes::Mojito => 25,
            Scenes::Club => 26,
            Scenes::Christmas => 27,
            Scenes::Halloween => 28,
            Scenes::Candlelight => 29,
            Scenes::GoldenWhite => 30,
            Scenes::Pulse => 31,
            Scenes::Steampunk => 32,
            Scenes::Rhythm => 1000,
        }
    }

    /// The display name of the scene.
    pub fn name(&self) -> (name: &'static str)
        ensures
            name@ == self.spec_name(),
    {
        match self {
            Scenes::Ocean => "Ocean",
            Scenes::Romance => "Romance",
            Scenes::Sunset => "Sunset",
            Scenes::Party => "Party",
            Scenes::Fireplace => "Fireplace",
            Scenes::Cozy => "Cozy",
            Scenes::Forest => "Forest",
            Scenes::PastelColors => "Pastel Colors",
            Scenes::Wakeup => "Wake up",
            Scenes::Bedtime => "Bedtime",
            Scenes::WarmWhite => "Warm White",
            Scenes::Daylight => "Daylight",
            Scenes::CoolWhite => "Cool white",
            Scenes::NighLight => "Night light",
            Scenes::Focus => "Focus",
            Scenes::Relax => "Relax",
            Scenes::Truecolors => "True colors",
            Scenes::TVtime => "TV time",
            Scenes::Plantgrowth => "Plantgrowth",
            Scenes::Spring => "Spring",
            Scenes::Summer => "Summer",
            Scenes::Fall => "Fall",
            Scenes::Deepdive => "Deepdive",
            Scenes::Jungle => "Jungle",
            Scenes::Mojito => "Mojito",
            Scenes::Club => "Club",
            Scenes::Christmas => "Christmas",
            Scenes::Halloween => "Halloween",
            Scenes::Candlelight => "Candlelight",
            Scenes::GoldenWhite => "Golden white",
            Scenes::Pulse => "Pulse",
            Scenes::Steampunk => "Steampunk",
            Scenes::Rhythm => "Rhythm",
        }
    }

    /// The scene with the given number. A number outside the catalogue is
    /// handed back in the error.
    pub fn from_id(id: u32) -> (r: Result<Self, SceneError>)
        ensures
            r is Ok <==> (1 <= id <= 32 || id == 1000),
            match r {
                Ok(scene) => scene.spec_id() == id && Self::spec_from_id(id) == Some(scene),
                Err(e) => e == SceneError::IDError(id) && Self::spec_from_id(id) is None,
            },
    {
        let scene = match id {
            1 => Scenes::Ocean,
            2 => Scenes::Romance,
            3 => Scenes::Sunset,
            4 => Scenes::Party,
            5 => Scenes::Fireplace,
            6 => Scenes::Cozy,
            7 => Scenes::Forest,
            8 => Scenes::PastelColors,
            9 => Scenes::Wakeup,
            10 => Scenes::Bedtime,
            11 => Scenes::WarmWhite,
            12 => Scenes::Daylight,
            13 => Scenes::CoolWhite,
            14 => Scenes::NighLight,
            15 => Scenes::Focus,
            16 => Scenes::Relax,
            17 => Scenes::Truecolors,
            18 => Scenes::TVtime,
            19 => Scenes::Plantgrowth,
            20 => Scenes::Spring,
            21 => Scenes::Summer,
            22 => Scenes::Fall,
            23 => Scenes::Deepdive,
            24 => Scenes::Jungle,
            25 => Scenes::Mojito,
            26 => Scenes::Club,
            27 => Scenes::Christmas,
            28 => Scenes::Halloween,
            29 => Scenes::Candlelight,
            30 => Scenes::GoldenWhite,
            31 => Scenes::Pulse,
            32 => Scenes::Steampunk,
            1000 => Scenes::Rhythm,
            _ => {
                return Err(SceneError::IDError(id));
            },
        };
        proof {
            lemma_ids_distinct(scene, choose|s: Scenes| s.spec_id() == id);
        }
        Ok(scene)
    }

    /// The number that the catalogue gives under a display name.
    fn id_of_name(name: &str) -> (r: Option<u32>)
        ensures
            match r {
                Some(id) => exists|s: Scenes| s.spec_name() == name@ && s.spec_id() == id,
                None => forall|s: Scenes| s.spec_name() != name@,
            },
    {
        if text_eq(name, "Ocean") {
            assert(Scenes::Ocean.spec_name() == name@ && Scenes::Ocean.spec_id() == 1);
            Some(1)
        } else if text_eq(name, "Romance") {
            assert(Scenes::Romance.spec_name() == name@ && Scenes::Romance.spec_id() == 2);
            Some(2)
        } else if text_eq(name, "Sunset") {
            assert(Scenes::Sunset.spec_name() == name@ && Scenes::Sunset.spec_id() == 3);
            Some(3)
        } else if text_eq(name, "Party") {
            assert(Scenes::Party.spec_name() == name@ && Scenes::Party.spec_id() == 4);
            Some(4)
        } else if text_eq(name, "Fireplace") {
            assert(Scenes::Fireplace.spec_name() == name@ && Scenes::Fireplace.spec_id() == 5);
            Some(5)
        } else if text_eq(name, "Cozy") {
            assert(Scenes::Cozy.spec_name() == name@ && Scenes::Cozy.spec_id() == 6);
            Some(6)
        } else if text_eq(name, "Forest") {
            assert(Scenes::Forest.spec_name() == name@ && Scenes::Forest.spec_id() == 7);
            Some(7)
        } else if text_eq(name, "Pastel Colors") {
            assert(Scenes::PastelColors.spec_name() == name@ && Scenes::PastelColors.spec_id() == 8);
            Some(8)
        } else if text_eq(name, "Wake up") {
            assert(Scenes::Wakeup.spec_name() == name@ && Scenes::Wakeup.spec_id() == 9);
            Some(9)
        } else if text_eq(name, "Bedtime") {
            assert(Scenes::Bedtime.spec_name() == name@ && Scenes::Bedtime.spec_id() == 10);
            Some(10)
        } else if text_eq(name, "Warm White") {
            assert(Scenes::WarmWhite.spec_name() == name@ && Scenes::WarmWhite.spec_id() == 11);
            Some(11)
        } else if text_eq(name, "Daylight") {
            assert(Scenes::Daylight.spec_name() == name@ && Scenes::Daylight.spec_id() == 12);
            Some(12)
        } else if text_eq(name, "Cool white") {
            assert(Scenes::CoolWhite.spec_name() == name@ && Scenes::CoolWhite.spec_id() == 13);
            Some(13)
        } else if text_eq(name, "Night light") {
            assert(Scenes::NighLight.spec_name() == name@ && Scenes::NighLight.spec_id() == 14);
            Some(14)
        } else if text_eq(name, "Focus") {
            assert(Scenes::Focus.spec_name() == name@ && Scenes::Focus.spec_id() == 15);
            Some(15)
        } else if text_eq(name, "Relax") {
            assert(Scenes::Relax.spec_name() == name@ && Scenes::Relax.spec_id() == 16);
            Some(16)
        } else if text_eq(name, "True colors") {
            assert(Scenes::Truecolors.spec_name() == name@ && Scenes::Truecolors.spec_id() == 17);
            Some(17)
        } else if text_eq(name, "TV time") {
            assert(Scenes::TVtime.spec_name() == name@ && Scenes::TVtime.spec_id() == 18);
            Some(18)
        } else if text_eq(name, "Plantgrowth") {
            assert(Scenes::Plantgrowth.spec_name() == name@ && Scenes::Plantgrowth.spec_id() == 19);
            Some(19)
        } else if text_eq(name, "Spring") {
            assert(Scenes::Spring.spec_name() == name@ && Scenes::Spring.spec_id() == 20);
            Some(20)
        } else if text_eq(name, "Summer") {
            assert(Scenes::Summer.spec_name() == name@ && Scenes::Summer.spec_id() == 21);
            Some(21)
        } else if text_eq(name, "Fall") {
            assert(Scenes::Fall.spec_name() == name@ && Scenes::Fall.spec_id() == 22);
            Some(22)
        } else if text_eq(name, "Deepdive") {
            assert(Scenes::Deepdive.spec_name() == name@ && Scenes::Deepdive.spec_id() == 23);
            Some(23)
        } else if text_eq(name, "Jungle") {
            assert(Scenes::Jungle.spec_name() == name@ && Scenes::Jungle.spec_id() == 24);
            Some(24)
        } else if text_eq(name, "Mojito") {
            assert(Scenes::Mojito.spec_name() == name@ && Scenes::Mojito.spec_id() == 25);
            Some(25)
        } else if text_eq(name, "Club") {
            assert(Scenes::Club.spec_name() == name@ && Scenes::Club.spec_id() == 26);
            Some(26)
        } else if text_eq(name, "Christmas") {
            assert(Scenes::Christmas.spec_name() == name@ && Scenes::Christmas.spec_id() == 27);
            Some(27)
        } else if text_eq(name, "Halloween") {
            assert(Scenes::Halloween.spec_name() == name@ && Scenes::Halloween.spec_id() == 28);
            Some(28)
        } else if text_eq(name, "Candlelight") {
            assert(Scenes::Candlelight.spec_name() == name@ && Scenes::Candlelight.spec_id() == 29);
            Some(29)
        } else if text_eq(name, "Golden white") {
            assert(Scenes::GoldenWhite.spec_name() == name@ && Scenes::GoldenWhite.spec_id() == 30);
            Some(30)
        } else if text_eq(name, "Pulse") {
            assert(Scenes::Pulse.spec_name() == name@ && Scenes::Pulse.spec_id() == 31);
            Some(31)
        } else if text_eq(name, "Steampunk") {
            assert(Scenes::Steampunk.spec_name() == name@ && Scenes::Steampunk.spec_id() == 32);
            Some(32)
        } else if text_eq(name, "Rhythm") {
            assert(Scenes::Rhythm.spec_name() == name@ && Scenes::Rhythm.spec_id() == 1000);
            Some(1000)
        } else {
            None
        }
    }

    /// The scene with the given display name. The name is looked up for its
    /// number, and the number for its scene. A name that the catalogue lacks
    /// is handed back in the error.
    pub fn from_name(name: String) -> (r: Result<Self, SceneError>)
        ensures
            r is Ok <==> exists|s: Scenes| s.spec_name() == name@,
            match r {
                Ok(scene) => scene.spec_name() == name@,
                Err(e) => e == SceneError::NameError(name),
            },
    {
        match Self::id_of_name(name.as_str()) {
            Some(id) => {
                proof {
                    let named = choose|s: Scenes| s.spec_name() == name@ && s.spec_id() == id;
                    lemma_id_round_trip(named);
                }
                Self::from_id(id)
            },
            None => Err(SceneError::NameError(name)),
        }
    }

    /// The scenes with the given numbers, in the same order. The first number
    /// outside the catalogue ends the work and is handed back in the error.
    pub fn get_scenes_list(list: Vec<u32>) -> (r: Result<Vec<Self>, SceneError>)
        ensures
            match r {
                Ok(scenes) => {
                    &&& scenes@.len() == list@.len()
                    &&& forall|i: int|
                        0 <= i < list@.len() ==> Self::spec_from_id(#[trigger] list@[i]) == Some(
                            scenes@[i],
                        )
                },
                Err(e) => exists|i: int|
                    {
                        &&& 0 <= i < list@.len()
                        &&& Self::spec_from_id(#[trigger] list@[i]) is None
                        &&& e == SceneError::IDError(list@[i])
                        &&& forall|j: int| 0 <= j < i ==> Self::spec_from_id(#[trigger] list@[j]) is Some
                    },
            },
    {
        let mut scenes: Vec<Scenes> = Vec::new();
        let mut at: usize = 0;
        while at < list.len()
            invariant
                at <= list@.len(),
                scenes@.len() == at,
                forall|i: int|
                    0 <= i < at ==> Self::spec_from_id(#[trigger] list@[i]) == Some(scenes@[i]),
            decreases list@.len() - at,
        {
            match Self::from_id(list[at]) {
                Ok(scene) => {
                    scenes.push(scene);
                },
                Err(e) => {
                    return Err(e);
                },
            }
            at = at + 1;
        }
        Ok(scenes)
    }

    /// The scenes that tunable white light can show.
    pub fn get_tunable_white_scenes() -> (r: Result<Vec<Self>, SceneError>)
        ensures
            r is Ok,
            r->Ok_0@ == Self::spec_tunable_white(),
    {
        let ids: Vec<u32> = vec![6, 9, 10, 11, 12, 13, 14, 15, 16, 18, 29, 30, 31, 32];
        proof {
            lemma_catalogue();
        }
        let r = Self::get_scenes_list(ids);
        proof {
            if r is Ok {
                assert(r->Ok_0@ =~= Self::spec_tunable_white());
            }
        }
        r
    }

    /// The scenes that dimmable white light can show.
    pub fn get_dimmable_white_scenes() -> (r: Result<Vec<Self>, SceneError>)
        ensures
            r is Ok,
            r->Ok_0@ == Self::spec_dimmable_white(),
    {
        let ids: Vec<u32> = vec![9, 10, 13, 14, 29, 30, 31, 32];
        proof {
            lemma_catalogue();
        }
        let r = Self::get_scenes_list(ids);
        proof {
            if r is Ok {
                assert(r->Ok_0@ =~= Self::spec_dimmable_white());
            }
        }
        r
    }
}

/// No two scenes share a number.
pub proof fn lemma_ids_distinct(a: Scenes, b: Scenes)
    requires
        a.spec_id() == b.spec_id(),
    ensures
        a == b,
{
}

/// Looking up the number of a scene gives that scene back, and every scene
/// has a number of the catalogue.
pub proof fn lemma_id_round_trip(scene: Scenes)
    ensures
        Scenes::spec_from_id(scene.spec_id()) == Some(scene),
        1 <= scene.spec_id() <= 32 || scene.spec_id() == 1000,
{
    lemma_ids_distinct(scene, choose|s: Scenes| s.spec_id() == scene.spec_id());
}

/// Every number of the catalogue has its scene.
proof fn lemma_catalogue()
    ensures
        Scenes::spec_from_id(1) == Some(Scenes::Ocean),
        Scenes::spec_from_id(2) == Some(Scenes::Romance),
        Scenes::spec_from_id(3) == Some(Scenes::Sunset),
        Scenes::spec_from_id(4) == Some(Scenes::Party),
        Scenes::spec_from_id(5) == Some(Scenes::Fireplace),
        Scenes::spec_from_id(6) == Some(Scenes::Cozy),
        Scenes::spec_from_id(7) == Some(Scenes::Forest),
        Scenes::spec_from_id(8) == Some(Scenes::PastelColors),
        Scenes::spec_from_id(9) == Some(Scenes::Wakeup),
        Scenes::spec_from_id(10) == Some(Scenes::Bedtime),
        Scenes::spec_from_id(11) == Some(Scenes::WarmWhite),
        Scenes::spec_from_id(12) == Some(Scenes::Daylight),
        Scenes::spec_from_id(13) == Some(Scenes::CoolWhite),
        Scenes::spec_from_id(14) == Some(Scenes::NighLight),
        Scenes::spec_from_id(15) == Some(Scenes::Focus),
        Scenes::spec_from_id(16) == Some(Scenes::Relax),
        Scenes::spec_from_id(17) == Some(Scenes::Truecolors),
        Scenes::spec_from_id(18) == Some(Scenes::TVtime),
        Scenes::spec_from_id(19) == Some(Scenes::Plantgrowth),
        Scenes::spec_from_id(20) == Some(Scenes::Spring),
        Scenes::spec_from_id(21) == Some(Scenes::Summer),
        Scenes::spec_from_id(22) == Some(Scenes::Fall),
        Scenes::spec_from_id(23) == Some(Scenes::Deepdive),
        Scenes::spec_from_id(24) == Some(Scenes::Jungle),
        Scenes::spec_from_id(25) == Some(Scenes::Mojito),
        Scenes::spec_from_id(26) == Some(Scenes::Club),
        Scenes::spec_from_id(27) == Some(Scenes::Christmas),
        Scenes::spec_from_id(28) == Some(Scenes::Halloween),
        Scenes::spec_from_id(29) == Some(Scenes::Candlelight),
        Scenes::spec_from_id(30) == Some(Scenes::GoldenWhite),
        Scenes::spec_from_id(31) == Some(Scenes::Pulse),
        Scenes::spec_from_id(32) == Some(Scenes::Steampunk),
        Scenes::spec_from_id(1000) == Some(Scenes::Rhythm),
{
    lemma_id_round_trip(Scenes::Ocean);
    lemma_id_round_trip(Scenes::Romance);
    lemma_id_round_trip(Scenes::Sunset);
    lemma_id_round_trip(Scenes::Party);
    lemma_id_round_trip(Scenes::Fireplace);
    lemma_id_round_trip(Scenes::Cozy);
    lemma_id_round_trip(Scenes::Forest);
    lemma_id_round_trip(Scenes::PastelColors);
    lemma_id_round_trip(Scenes::Wakeup);
    lemma_id_round_trip(Scenes::Bedtime);
    lemma_id_round_trip(Scenes::WarmWhite);
    lemma_id_round_trip(Scenes::Daylight);
    lemma_id_round_trip(Scenes::CoolWhite);
    lemma_id_round_trip(Scenes::NighLight);
    lemma_id_round_trip(Scenes::Focus);
    lemma_id_round_trip(Scenes::Relax);
    lemma_id_round_trip(Scenes::Truecolors);
    lemma_id_round_trip(Scenes::TVtime);
    lemma_id_round_trip(Scenes::Plantgrowth);
    lemma_id_round_trip(Scenes::Spring);
    lemma_id_round_trip(Scenes::Summer);
    lemma_id_round_trip(Scenes::Fall);
    lemma_id_round_trip(Scenes::Deepdive);
    lemma_id_round_trip(Scenes::Jungle);
    lemma_id_round_trip(Scenes::Mojito);
    lemma_id_round_trip(Scenes::Club);
    lemma_id_round_trip(Scenes::Christmas);
    lemma_id_round_trip(Scenes::Halloween);
    lemma_id_round_trip(Scenes::Candlelight);
    lemma_id_round_trip(Scenes::GoldenWhite);
    lemma_id_round_trip(Scenes::Pulse);
    lemma_id_round_trip(Scenes::Steampunk);
    lemma_id_round_trip(Scenes::Rhythm);
}

/// The first three characters of a display name.
spec fn initials(name: Seq<char>) -> (char, char, char) {
    (name[0], name[1], name[2])
}

/// The first three characters of the display name of each scene.
spec fn scene_initials(scene: Scenes) -> (char, char, char) {
    match scene {
        Scenes::Ocean => ('O', 'c', 'e'),
        Scenes::Romance => ('R', 'o', 'm'),
        Scenes::Sunset => ('S', 'u', 'n'),
        Scenes::Party => ('P', 'a', 'r'),
        Scenes::Fireplace => ('F', 'i', 'r'),
        Scenes::Cozy => ('C', 'o', 'z'),
        Scenes::Forest => ('F', 'o', 'r'),
        Scenes::PastelColors => ('P', 'a', 's'),
        Scenes::Wakeup => ('W', 'a', 'k'),
        Scenes::Bedtime => ('B', 'e', 'd'),
        Scenes::WarmWhite => ('W', 'a', 'r'),
        Scenes::Daylight => ('D', 'a', 'y'),
        Scenes::CoolWhite => ('C', 'o', 'o'),
        Scenes::NighLight => ('N', 'i', 'g'),
        Scenes::Focus => ('F', 'o', 'c'),
        Scenes::Relax => ('R', 'e', 'l'),
        Scenes::Truecolors => ('T', 'r', 'u'),
        Scenes::TVtime => ('T', 'V', ' '),
        Scenes::Plantgrowth => ('P', 'l', 'a'),
        Scenes::Spring => ('S', 'p', 'r'),
        Scenes::Summer => ('S', 'u', 'm'),
        Scenes::Fall => ('F', 'a', 'l'),
        Scenes::Deepdive => ('D', 'e', 'e'),
        Scenes::Jungle => ('J', 'u', 'n'),
        Scenes::Mojito => ('M', 'o', 'j'),
        Scenes::Club => ('C', 'l', 'u'),
        Scenes::Christmas => ('C', 'h', 'r'),
        Scenes::Halloween => ('H', 'a', 'l'),
        Scenes::Candlelight => ('C', 'a', 'n'),
        Scenes::GoldenWhite => ('G', 'o', 'l'),
        Scenes::Pulse => ('P', 'u', 'l'),
        Scenes::Steampunk => ('S', 't', 'e'),
        Scenes::Rhythm => ('R', 'h', 'y'),
    }
}

proof fn lemma_scene_initials(scene: Scenes)
    ensures
        initials(scene.spec_name()) == scene_initials(scene),
{
    reveal_strlit("Ocean");
    reveal_strlit("Romance");
    reveal_strlit("Sunset");
    reveal_strlit("Party");
    reveal_strlit("Fireplace");
    reveal_strlit("Cozy");
    reveal_strlit("Forest");
    reveal_strlit("Pastel Colors");
    reveal_strlit("Wake up");
    reveal_strlit("Bedtime");
    reveal_strlit("Warm White");
    reveal_strlit("Daylight");
    reveal_strlit("Cool white");
    reveal_strlit("Night light");
    reveal_strlit("Focus");
    reveal_strlit("Relax");
    reveal_strlit("True colors");
    reveal_strlit("TV time");
    reveal_strlit("Plantgrowth");
    reveal_strlit("Spring");
    reveal_strlit("Summer");
    reveal_strlit("Fall");
    reveal_strlit("Deepdive");
    reveal_strlit("Jungle");
    reveal_strlit("Mojito");
    reveal_strlit("Club");
    reveal_strlit("Christmas");
    reveal_strlit("Halloween");
    reveal_strlit("Candlelight");
    reveal_strlit("Golden white");
    reveal_strlit("Pulse");
    reveal_strlit("Steampunk");
    reveal_strlit("Rhythm");
}

/// No two scenes share a display name.
pub proof fn lemma_names_distinct(a: Scenes, b: Scenes)
    requires
        a.spec_name() == b.spec_name(),
    ensures
        a == b,
{
    lemma_scene_initials(a);
    lemma_scene_initials(b);
}

} // verus!
