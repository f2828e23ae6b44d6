use vstd::prelude::*;

verus! {

/// A playable character, identified in game memory by its roster index.
#[derive(Debug, Clone, Copy, PartialEq, Eq, Structural)]
pub enum GameChar {
    Sion,
    Arcueid,
    Ciel,
    Seifuku,
    Maids,
    Hisui,
    Kohaku,
    Tohno,
    Miyako,
    Wara,
    Nero,
    VSion,
    WArcueid,
    Akiha,
    Mech,
    Nanaya,
    Satsuki,
    Len,
    PCiel,
    Neco,
    Aoko,
    WLen,
    Nac,
    Kouma,
    Sei,
    Ries,
    Roa,
    Ryougi,
    Hime,
    NecoMech,
}

/// The roster index under which the game stores a character.
pub open spec fn roster_id(c: GameChar) -> u32 {
    match c {
        GameChar::Sion => 0,
        GameChar::Arcueid => 1,
        GameChar::Ciel => 2,
        GameChar::Seifuku => 3,
        GameChar::Maids => 4,
        GameChar::Hisui => 5,
        GameChar::Kohaku => 6,
        GameChar::Tohno => 7,
        GameChar::Miyako => 8,
        GameChar::Wara => 9,
        GameChar::Nero => 10,
        GameChar::VSion => 11,
        GameChar::WArcueid => 12,
        GameChar::Akiha => 13,
        GameChar::Mech => 14,
        GameChar::Nanaya => 15,
        GameChar::Satsuki => 17,
        GameChar::Len => 18,
        GameChar::PCiel => 19,
        GameChar::Neco => 20,
        GameChar::Aoko => 22,
        GameChar::WLen => 23,
        GameChar::Nac => 25,
        GameChar::Kouma => 28,
        GameChar::Sei => 29,
        GameChar::Ries => 30,
        GameChar::Roa => 31,
        GameChar::Ryougi => 33,
        GameChar::Hime => 34,
        GameChar::NecoMech => 35,
    }
}

/// The character stored under a roster index, if any.
pub open spec fn char_from_id(id: u32) -> Option<GameChar> {
    if id == 0 { Some(GameChar::Sion) }
    else if id == 1 { Some(GameChar::Arcueid) }
    else if id == 2 { Some(GameChar::Ciel) }
    else if id == 3 { Some(GameChar::Seifuku) }
    else if id == 4 { Some(GameChar::Maids) }
    else if id == 5 { Some(GameChar::Hisui) }
    else if id == 6 { Some(GameChar::Kohaku) }
    else if id == 7 { Some(GameChar::Tohno) }
    else if id == 8 { Some(GameChar::Miyako) }
    else if id == 9 { Some(GameChar::Wara) }
    else if id == 10 { Some(GameChar::Nero) }
    else if id == 11 { Some(GameChar::VSion) }
    else if id == 12 { Some(GameChar::WArcueid) }
    else if id == 13 { Some(GameChar::Akiha) }
    else if id == 14 { Some(GameChar::Mech) }
    else if id == 15 { Some(GameChar::Nanaya) }
    else if id == 17 { Some(GameChar::Satsuki) }
    else if id == 18 { Some(GameChar::Len) }
    else if id == 19 { Some(GameChar::PCiel) }
    else if id == 20 { Some(GameChar::Neco) }
    else if id == 22 { Some(GameChar::Aoko) }
    else if id == 23 { Some(GameChar::WLen) }
    else if id == 25 { Some(GameChar::Nac) }
    else if id == 28 { Some(GameChar::Kouma) }
    else if id == 29 { Some(GameChar::Sei) }
    else if id == 30 { Some(GameChar::Ries) }
    else if id == 31 { Some(GameChar::Roa) }
    else if id == 33 { Some(GameChar::Ryougi) }
    else if id == 34 { Some(GameChar::Hime) }
    else if id == 35 { Some(GameChar::NecoMech) }
    else { None }
}

impl GameChar {
    /// Decodes a roster index read from memory.
    pub fn from_id(id: u32) -> (r: Option<GameChar>)
        ensures
            r == char_from_id(id),
    {
        match id {
            0 => Some(GameChar::Sion),
            1 => Some(GameChar::Arcueid),
            2 => Some(GameChar::Ciel),
            3 => Some(GameChar::Seifuku),
            4 => Some(GameChar::Maids),
            5 => Some(GameChar::Hisui),
            6 => Some(GameChar::Kohaku),
            7 => Some(GameChar::Tohno),
            8 => Some(GameChar::Miyako),
            9 => Some(GameChar::Wara),
            10 => Some(GameChar::Nero),
            11 => Some(GameChar::VSion),
            12 => Some(GameChar::WArcueid),
            13 => Some(GameChar::Akiha),
            14 => Some(GameChar::Mech),
            15 => Some(GameChar::Nanaya),
            17 => Some(GameChar::Satsuki),
            18 => Some(GameChar::Len),
            19 => Some(GameChar::PCiel),
            20 => Some(GameChar::Neco),
            22 => Some(GameChar::Aoko),
            23 => Some(GameChar::WLen),
            25 => Some(GameChar::Nac),
            28 => Some(GameChar::Kouma),
            29 => Some(GameChar::Sei),
            30 => Some(GameChar::Ries),
            31 => Some(GameChar::Roa),
            33 => Some(GameChar::Ryougi),
            34 => Some(GameChar::Hime),
            35 => Some(GameChar::NecoMech),
            _ => None,
        }
    }

    /// The roster index of this character.
    pub fn id(&self) -> (r: u32)
        ensures
            r == roster_id(*self),
    {
        match self {
            GameChar::Sion => 0,
            GameChar::Arcueid => 1,
            GameChar::Ciel => 2,
            GameChar::Seifuku => 3,
            GameChar::Maids => 4,
            GameChar::Hisui => 5,
            GameChar::Kohaku => 6,
            GameChar::Tohno => 7,
            GameChar::Miyako => 8,
            GameChar::Wara => 9,
            GameChar::Nero => 10,
            GameChar::VSion => 11,
            GameChar::WArcueid => 12,
            GameChar::Akiha => 13,
            GameChar::Mech => 14,
            GameChar::Nanaya => 15,
            GameChar::Satsuki => 17,
            GameChar::Len => 18,
            GameChar::PCiel => 19,
            GameChar::Neco => 20,
            GameChar::Aoko => 22,
            GameChar::WLen => 23,
            GameChar::Nac => 25,
            GameChar::Kouma => 28,
            GameChar::Sei => 29,
            GameChar::Ries => 30,
            GameChar::Roa => 31,
            GameChar::Ryougi => 33,
            GameChar::Hime => 34,
            GameChar::NecoMech => 35,
        }
    }
}

/// Decoding the roster index of a character gives that character back, and a decoded
/// index is the index of the character it decodes to.
pub proof fn lemma_char_id_roundtrip(c: GameChar, id: u32)
    ensures
        char_from_id(roster_id(c)) == Some(c),
        char_from_id(id) matches Some(d) ==> roster_id(d) == id,
{
}

/// The moon style a player picked.
#[derive(Debug, Clone, Copy, PartialEq, Eq, Structural)]
pub enum Moon {
    Crescent,
    Full,
    Half,
}

/// The value under which the game stores a moon style.
pub open spec fn moon_code(m: Moon) -> u32 {
    match m {
        Moon::Crescent => 0,
        Moon::Full => 1,
        Moon::Half => 2,
    }
}

/// The moon style stored under a value, if any.
pub open spec fn moon_from_code(v: u32) -> Option<Moon> {
    if v == 0 {
        Some(Moon::Crescent)
    } else if v == 1 {
        Some(Moon::Full)
    } else if v == 2 {
        Some(Moon::Half)
    } else {
        None
    }
}

impl Moon {
    /// Decodes a moon selector value read from memory.
    pub fn from_code(v: u32) -> (r: Option<Moon>)
        ensures
            r == moon_from_code(v),
    {
        match v {
            0 => Some(Moon::Crescent),
            1 => Some(Moon::Full),
            2 => Some(Moon::Half),
            _ => None,
        }
    }

    /// The selector value of this moon style.
    pub fn code(&self) -> (r: u32)
        ensures
            r == moon_code(*self),
    {
        match self {
            Moon::Crescent => 0,
            Moon::Full => 1,
            Moon::Half => 2,
        }
    }
}

/// Decoding the selector value of a moon style gives that style back, and a decoded
/// value is the code of the style it decodes to.
pub proof fn lemma_moon_code_roundtrip(m: Moon, v: u32)
    ensures
        moon_from_code(moon_code(m)) == Some(m),
        moon_from_code(v) matches Some(n) ==> moon_code(n) == v,
{
}

/// The name of a character, as messages show it.
pub open spec fn char_name(c: GameChar) -> Seq<char> {
    match c {
        GameChar::Sion => "Sion"@,
        GameChar::Arcueid => "Arcueid"@,
        GameChar::Ciel => "Ciel"@,
        GameChar::Seifuku => "Seifuku"@,
        GameChar::Maids => "Maids"@,
        GameChar::Hisui => "Hisui"@,
        GameChar::Kohaku => "Kohaku"@,
        GameChar::Tohno => "Tohno"@,
        GameChar::Miyako => "Miyako"@,
        GameChar::Wara => "Wara"@,
        GameChar::Nero => "Nero"@,
        GameChar::VSion => "VSion"@,
        GameChar::WArcueid => "WArcueid"@,
        GameChar::Akiha => "Akiha"@,
        GameChar::Mech => "Mech"@,
        GameChar::Nanaya => "Nanaya"@,
        GameChar::Satsuki => "Satsuki"@,
        GameChar::Len => "Len"@,
        GameChar::PCiel => "PCiel"@,
        GameChar::Neco => "Neco"@,
        GameChar::Aoko => "Aoko"@,
        GameChar::WLen => "WLen"@,
        GameChar::Nac => "Nac"@,
        GameChar::Kouma => "Kouma"@,
        GameChar::Sei => "Sei"@,
        GameChar::Ries => "Ries"@,
        GameChar::Roa => "Roa"@,
        GameChar::Ryougi => "Ryougi"@,
        GameChar::Hime => "Hime"@,
        GameChar::NecoMech => "NecoMech"@,
    }
}

impl GameChar {
    /// The name of this character.
    pub fn name(&self) -> (r: &'static str)
        ensures
            r@ == char_name(*self),
    {
        match self {
            GameChar::Sion => "Sion",
            GameChar::Arcueid => "Arcueid",
            GameChar::Ciel => "Ciel",
            GameChar::Seifuku => "Seifuku",
            GameChar::Maids => "Maids",
            GameChar::Hisui => "Hisui",
            GameChar::Kohaku => "Kohaku",
            GameChar::Tohno => "Tohno",
            GameChar::Miyako => "Miyako",
            GameChar::Wara => "Wara",
            GameChar::Nero => "Nero",
            GameChar::VSion => "VSion",
            GameChar::WArcueid => "WArcueid",
            GameChar::Akiha => "Akiha",
            GameChar::Mech => "Mech",
            GameChar::Nanaya => "Nanaya",
            GameChar::Satsuki => "Satsuki",
            GameChar::Len => "Len",
            GameChar::PCiel => "PCiel",
            GameChar::Neco => "Neco",
            GameChar::Aoko => "Aoko",
            GameChar::WLen => "WLen",
            GameChar::Nac => "Nac",
            GameChar::Kouma => "Kouma",
            GameChar::Sei => "Sei",
            GameChar::Ries => "Ries",
            GameChar::Roa => "Roa",
            GameChar::Ryougi => "Ryougi",
            GameChar::Hime => "Hime",
            GameChar::NecoMech => "NecoMech",
        }
    }
}

/// The name of a moon style, as messages show it.
pub open spec fn moon_name(m: Moon) -> Seq<char> {
    match m {
        Moon::Crescent => "Crescent"@,
        Moon::Full => "Full"@,
        Moon::Half => "Half"@,
    }
}

impl Moon {
    /// The name of this moon style.
    pub fn name(&self) -> (r: &'static str)
        ensures
            r@ == moon_name(*self),
    {
        match self {
            Moon::Crescent => "Crescent",
            Moon::Full => "Full",
            Moon::Half => "Half",
        }
    }
}

} // verus!
