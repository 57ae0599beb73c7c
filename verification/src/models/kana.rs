//! The symbol catalog: every kana that can be drilled, its two written forms
//! and the romanised answers that are accepted for it.

use super::answer::ValidateAnswer;
use vstd::prelude::*;
use vstd::string::StringExecFns;

verus! {

/// The script in which a symbol is shown.
#[derive(Debug, Clone, Copy, PartialEq, Eq, Hash, Structural)]
pub enum KanaRepresentation {
    Hiragana,
    Katakana,
}

impl KanaRepresentation {
    /// The script's name in lower case, as a sequence of characters.
    pub open spec fn name_text(self) -> Seq<char> {
        match self {
            KanaRepresentation::Hiragana => "hiragana"@,
            KanaRepresentation::Katakana => "katakana"@,
        }
    }

    /// The script's name in lower case.
    pub fn name(&self) -> (text: &'static str)
        ensures
            text@ == self.name_text(),
    {
        match self {
            KanaRepresentation::Hiragana => "hiragana",
            KanaRepresentation::Katakana => "katakana",
        }
    }
}

/// One quizzable symbol. The variants are named after their romanisation.
#[derive(Debug, Clone, Copy, PartialEq, Eq, Hash, Structural)]
pub enum Kana {
    // the syllabic nasal
    N,
    // bare vowels
    A,
    I,
    U,
    E,
    O,
    // k row
    Ka,
    Ki,
    Ku,
    Ke,
    Ko,
    // s row
    Sa,
    Shi,
    Su,
    Se,
    So,
    // t row
    Ta,
    Chi,
    Tsu,
    Te,
    To,
    // n row
    Na,
    Ni,
    Nu,
    Ne,
    No,
    // h row
    Ha,
    Hi,
    Fu,
    He,
    Ho,
    // m row
    Ma,
    Mi,
    Mu,
    Me,
    Mo,
    // y row
    Ya,
    Yu,
    Yo,
    // r row
    Ra,
    Ri,
    Ru,
    Re,
    Ro,
    // w row
    Wa,
    Wo,
    // g row, voiced
    Ga,
    Gi,
    Gu,
    Ge,
    Go,
    // z row, voiced
    Za,
    Ji,
    Zu,
    Ze,
    Zo,
    // d row, voiced
    Da,
    Dji,
    Dzu,
    De,
    Do,
    // b row, voiced
    Ba,
    Bi,
    Bu,
    Be,
    Bo,
    // p row, half-voiced
    Pa,
    Pi,
    Pu,
    Pe,
    Po,
}

/// How many symbols the catalog holds.
pub const KANA_COUNT: usize = 71;

impl Kana {
    /// The symbol's place in the catalog, counted from zero.
    pub open spec fn ordinal(self) -> nat {
        match self {
            Kana::N => 0,
            Kana::A => 1,
            Kana::I => 2,
            Kana::U => 3,
            Kana::E => 4,
            Kana::O => 5,
            Kana::Ka => 6,
            Kana::Ki => 7,
            Kana::Ku => 8,
            Kana::Ke => 9,
            Kana::Ko => 10,
            Kana::Sa => 11,
            Kana::Shi => 12,
            Kana::Su => 13,
            Kana::Se => 14,
            Kana::So => 15,
            Kana::Ta => 16,
            Kana::Chi => 17,
            Kana::Tsu => 18,
            Kana::Te => 19,
            Kana::To => 20,
            Kana::Na => 21,
            Kana::Ni => 22,
            Kana::Nu => 23,
            Kana::Ne => 24,
            Kana::No => 25,
            Kana::Ha => 26,
            Kana::Hi => 27,
            Kana::Fu => 28,
            Kana::He => 29,
            Kana::Ho => 30,
            Kana::Ma => 31,
            Kana::Mi => 32,
            Kana::Mu => 33,
            Kana::Me => 34,
            Kana::Mo => 35,
            Kana::Ya => 36,
            Kana::Yu => 37,
            Kana::Yo => 38,
            Kana::Ra => 39,
            Kana::Ri => 40,
            Kana::Ru => 41,
            Kana::Re => 42,
            Kana::Ro => 43,
            Kana::Wa => 44,
            Kana::Wo => 45,
            Kana::Ga => 46,
            Kana::Gi => 47,
            Kana::Gu => 48,
            Kana::Ge => 49,
            Kana::Go => 50,
            Kana::Za => 51,
            Kana::Ji => 52,
            Kana::Zu => 53,
            Kana::Ze => 54,
            Kana::Zo => 55,
            Kana::Da => 56,
            Kana::Dji => 57,
            Kana::Dzu => 58,
            Kana::De => 59,
            Kana::Do => 60,
            Kana::Ba => 61,
            Kana::Bi => 62,
            Kana::Bu => 63,
            Kana::Be => 64,
            Kana::Bo => 65,
            Kana::Pa => 66,
            Kana::Pi => 67,
            Kana::Pu => 68,
            Kana::Pe => 69,
            Kana::Po => 70,
        }
    }

    /// The symbol that stands at place `index` of the catalog; past its end,
    /// the last one.
    pub open spec fn at(index: nat) -> Kana {
        if index == 0 {
            Kana::N
        } else if index == 1 {
            Kana::A
        } else if index == 2 {
            Kana::I
        } else if index == 3 {
            Kana::U
        } else if index == 4 {
            Kana::E
        } else if index == 5 {
            Kana::O
        } else if index == 6 {
            Kana::Ka
        } else if index == 7 {
            Kana::Ki
        } else if index == 8 {
            Kana::Ku
        } else if index == 9 {
            Kana::Ke
        } else if index == 10 {
            Kana::Ko
        } else if index == 11 {
            Kana::Sa
        } else if index == 12 {
            Kana::Shi
        } else if index == 13 {
            Kana::Su
        } else if index == 14 {
            Kana::Se
        } else if index == 15 {
            Kana::So
        } else if index == 16 {
            Kana::Ta
        } else if index == 17 {
            Kana::Chi
        } else if index == 18 {
            Kana::Tsu
        } else if index == 19 {
            Kana::Te
        } else if index == 20 {
            Kana::To
        } else if index == 21 {
            Kana::Na
        } else if index == 22 {
            Kana::Ni
        } else if index == 23 {
            Kana::Nu
        } else if index == 24 {
            Kana::Ne
        } else if index == 25 {
            Kana::No
        } else if index == 26 {
            Kana::Ha
        } else if index == 27 {
            Kana::Hi
        } else if index == 28 {
            Kana::Fu
        } else if index == 29 {
            Kana::He
        } else if index == 30 {
            Kana::Ho
        } else if index == 31 {
            Kana::Ma
        } else if index == 32 {
            Kana::Mi
        } else if index == 33 {
            Kana::Mu
        } else if index == 34 {
            Kana::Me
        } else if index == 35 {
            Kana::Mo
        } else if index == 36 {
            Kana::Ya
        } else if index == 37 {
            Kana::Yu
        } else if index == 38 {
            Kana::Yo
        } else if index == 39 {
            Kana::Ra
        } else if index == 40 {
            Kana::Ri
        } else if index == 41 {
            Kana::Ru
        } else if index == 42 {
            Kana::Re
        } else if index == 43 {
            Kana::Ro
        } else if index == 44 {
            Kana::Wa
        } else if index == 45 {
            Kana::Wo
        } else if index == 46 {
            Kana::Ga
        } else if index == 47 {
            Kana::Gi
        } else if index == 48 {
            Kana::Gu
        } else if index == 49 {
            Kana::Ge
        } else if index == 50 {
            Kana::Go
        } else if index == 51 {
            Kana::Za
        } else if index == 52 {
            Kana::Ji
        } else if index == 53 {
            Kana::Zu
        } else if index == 54 {
            Kana::Ze
        } else if index == 55 {
            Kana::Zo
        } else if index == 56 {
            Kana::Da
        } else if index == 57 {
            Kana::Dji
        } else if index == 58 {
            Kana::Dzu
        } else if index == 59 {
            Kana::De
        } else if index == 60 {
            Kana::Do
        } else if index == 61 {
            Kana::Ba
        } else if index == 62 {
            Kana::Bi
        } else if index == 63 {
            Kana::Bu
        } else if index == 64 {
            Kana::Be
        } else if index == 65 {
            Kana::Bo
        } else if index == 66 {
            Kana::Pa
        } else if index == 67 {
            Kana::Pi
        } else if index == 68 {
            Kana::Pu
        } else if index == 69 {
            Kana::Pe
        } else {
            Kana::Po
        }
    }

    /// The whole catalog in its fixed order.
    pub open spec fn catalog() -> Seq<Kana> {
        Seq::new(KANA_COUNT as nat, |index: int| Kana::at(index as nat))
    }

    /// The symbol written in hiragana.
    pub open spec fn hiragana_text(self) -> Seq<char> {
        match self {
            Kana::N => "ん"@,
            Kana::A => "あ"@,
            Kana::I => "い"@,
            Kana::U => "う"@,
            Kana::E => "え"@,
            Kana::O => "お"@,
            Kana::Ka => "か"@,
            Kana::Ki => "き"@,
            Kana::Ku => "く"@,
            Kana::Ke => "け"@,
            Kana::Ko => "こ"@,
            Kana::Sa => "さ"@,
            Kana::Shi => "し"@,
            Kana::Su => "す"@,
            Kana::Se => "せ"@,
            Kana::So => "そ"@,
            Kana::Ta => "た"@,
            Kana::Chi => "ち"@,
            Kana::Tsu => "つ"@,
            Kana::Te => "て"@,
            Kana::To => "と"@,
            Kana::Na => "な"@,
            Kana::Ni => "に"@,
            Kana::Nu => "ぬ"@,
            Kana::Ne => "ね"@,
            Kana::No => "の"@,
            Kana::Ha => "は"@,
            Kana::Hi => "ひ"@,
            Kana::Fu => "ふ"@,
            Kana::He => "へ"@,
            Kana::Ho => "ほ"@,
            Kana::Ma => "ま"@,
            Kana::Mi => "み"@,
            Kana::Mu => "む"@,
            Kana::Me => "め"@,
            Kana::Mo => "も"@,
            Kana::Ya => "や"@,
            Kana::Yu => "ゆ"@,
            Kana::Yo => "よ"@,
            Kana::Ra => "ら"@,
            Kana::Ri => "り"@,
            Kana::Ru => "る"@,
            Kana::Re => "れ"@,
            Kana::Ro => "ろ"@,
            Kana::Wa => "わ"@,
            Kana::Wo => "を"@,
            Kana::Ga => "が"@,
            Kana::Gi => "ぎ"@,
            Kana::Gu => "ぐ"@,
            Kana::Ge => "げ"@,
            Kana::Go => "ご"@,
            Kana::Za => "ざ"@,
            Kana::Ji => "じ"@,
            Kana::Zu => "ず"@,
            Kana::Ze => "ぜ"@,
            Kana::Zo => "ぞ"@,
            Kana::Da => "だ"@,
            Kana::Dji => "ぢ"@,
            Kana::Dzu => "づ"@,
            Kana::De => "で"@,
            Kana::Do => "ど"@,
            Kana::Ba => "ば"@,
            Kana::Bi => "び"@,
            Kana::Bu => "ぶ"@,
            Kana::Be => "べ"@,
            Kana::Bo => "ぼ"@,
            Kana::Pa => "ぱ"@,
            Kana::Pi => "ぴ"@,
            Kana::Pu => "ぷ"@,
            Kana::Pe => "ぺ"@,
            Kana::Po => "ぽ"@,
        }
    }

    /// The symbol written in katakana.
    pub open spec fn katakana_text(self) -> Seq<char> {
        match self {
            Kana::N => "ン"@,
            Kana::A => "ア"@,
            Kana::I => "イ"@,
            Kana::U => "ウ"@,
            Kana::E => "エ"@,
            Kana::O => "オ"@,
            Kana::Ka => "カ"@,
            Kana::Ki => "キ"@,
            Kana::Ku => "ク"@,
            Kana::Ke => "ケ"@,
            Kana::Ko => "コ"@,
            Kana::Sa => "サ"@,
            Kana::Shi => "シ"@,
            Kana::Su => "ス"@,
            Kana::Se => "セ"@,
            Kana::So => "ソ"@,
            Kana::Ta => "タ"@,
            Kana::Chi => "チ"@,
            Kana::Tsu => "ツ"@,
            Kana::Te => "テ"@,
            Kana::To => "ト"@,
            Kana::Na => "ナ"@,
            Kana::Ni => "ニ"@,
            Kana::Nu => "ヌ"@,
            Kana::Ne => "ネ"@,
            Kana::No => "ノ"@,
            Kana::Ha => "ハ"@,
            Kana::Hi => "ヒ"@,
            Kana::Fu => "フ"@,
            Kana::He => "ヘ"@,
            Kana::Ho => "ホ"@,
            Kana::Ma => "マ"@,
            Kana::Mi => "ミ"@,
            Kana::Mu => "ム"@,
            Kana::Me => "メ"@,
            Kana::Mo => "モ"@,
            Kana::Ya => "ヤ"@,
            Kana::Yu => "ユ"@,
            Kana::Yo => "ヨ"@,
            Kana::Ra => "ラ"@,
            Kana::Ri => "リ"@,
            Kana::Ru => "ル"@,
            Kana::Re => "レ"@,
            Kana::Ro => "ロ"@,
            Kana::Wa => "ワ"@,
            Kana::Wo => "ヲ"@,
            Kana::Ga => "ガ"@,
            Kana::Gi => "ギ"@,
            Kana::Gu => "グ"@,
            Kana::Ge => "ゲ"@,
            Kana::Go => "ゴ"@,
            Kana::Za => "ザ"@,
            Kana::Ji => "ジ"@,
            Kana::Zu => "ズ"@,
            Kana::Ze => "ゼ"@,
            Kana::Zo => "ゾ"@,
            Kana::Da => "ダ"@,
            Kana::Dji => "ヂ"@,
            Kana::Dzu => "ヅ"@,
            Kana::De => "デ"@,
            Kana::Do => "ド"@,
            Kana::Ba => "バ"@,
            Kana::Bi => "ビ"@,
            Kana::Bu => "ブ"@,
            Kana::Be => "ベ"@,
            Kana::Bo => "ボ"@,
            Kana::Pa => "パ"@,
            Kana::Pi => "ピ"@,
            Kana::Pu => "プ"@,
            Kana::Pe => "ペ"@,
            Kana::Po => "ポ"@,
        }
    }

    /// The symbol as it is drawn in the given script.
    pub open spec fn glyph_text(self, representation: KanaRepresentation) -> Seq<char> {
        match representation {
            KanaRepresentation::Hiragana => self.hiragana_text(),
            KanaRepresentation::Katakana => self.katakana_text(),
        }
    }

    /// The canonical romanised label of the symbol.
    pub open spec fn romaji_text(self) -> Seq<char> {
        match self {
            Kana::N => "n"@,
            Kana::A => "a"@,
            Kana::I => "i"@,
            Kana::U => "u"@,
            Kana::E => "e"@,
            Kana::O => "o"@,
            Kana::Ka => "ka"@,
            Kana::Ki => "ki"@,
            Kana::Ku => "ku"@,
            Kana::Ke => "ke"@,
            Kana::Ko => "ko"@,
            Kana::Sa => "sa"@,
            Kana::Shi => "shi"@,
            Kana::Su => "su"@,
            Kana::Se => "se"@,
            Kana::So => "so"@,
            Kana::Ta => "ta"@,
            Kana::Chi => "chi"@,
            Kana::Tsu => "tsu"@,
            Kana::Te => "te"@,
            Kana::To => "to"@,
            Kana::Na => "na"@,
            Kana::Ni => "ni"@,
            Kana::Nu => "nu"@,
            Kana::Ne => "ne"@,
            Kana::No => "no"@,
            Kana::Ha => "ha"@,
            Kana::Hi => "hi"@,
            Kana::Fu => "fu"@,
            Kana::He => "he"@,
            Kana::Ho => "ho"@,
            Kana::Ma => "ma"@,
            Kana::Mi => "mi"@,
            Kana::Mu => "mu"@,
            Kana::Me => "me"@,
            Kana::Mo => "mo"@,
            Kana::Ya => "ya"@,
            Kana::Yu => "yu"@,
            Kana::Yo => "yo"@,
            Kana::Ra => "ra"@,
            Kana::Ri => "ri"@,
            Kana::Ru => "ru"@,
            Kana::Re => "re"@,
            Kana::Ro => "ro"@,
            Kana::Wa => "wa"@,
            Kana::Wo => "wo"@,
            Kana::Ga => "ga"@,
            Kana::Gi => "gi"@,
            Kana::Gu => "gu"@,
            Kana::Ge => "ge"@,
            Kana::Go => "go"@,
            Kana::Za => "za"@,
            Kana::Ji => "ji"@,
            Kana::Zu => "zu"@,
            Kana::Ze => "ze"@,
            Kana::Zo => "zo"@,
            Kana::Da => "da"@,
            Kana::Dji => "dji"@,
            Kana::Dzu => "dzu"@,
            Kana::De => "de"@,
            Kana::Do => "do"@,
            Kana::Ba => "ba"@,
            Kana::Bi => "bi"@,
            Kana::Bu => "bu"@,
            Kana::Be => "be"@,
            Kana::Bo => "bo"@,
            Kana::Pa => "pa"@,
            Kana::Pi => "pi"@,
            Kana::Pu => "pu"@,
            Kana::Pe => "pe"@,
            Kana::Po => "po"@,
        }
    }

    /// The second spelling that is accepted for the symbol, where there is one.
    pub open spec fn alternate_text(self) -> Option<Seq<char>> {
        match self {
            Kana::Chi => Some("tchi"@),
            Kana::Dji => Some("ji"@),
            _ => None,
        }
    }

    /// The symbol that stands at place `index` of the catalog.
    pub fn from_index(index: usize) -> (kana: Option<Kana>)
        ensures
            index < KANA_COUNT ==> kana == Some(Kana::at(index as nat)),
            index >= KANA_COUNT ==> kana is None,
    {
        match index {
            0 => Some(Kana::N),
            1 => Some(Kana::A),
            2 => Some(Kana::I),
            3 => Some(Kana::U),
            4 => Some(Kana::E),
            5 => Some(Kana::O),
            6 => Some(Kana::Ka),
            7 => Some(Kana::Ki),
            8 => Some(Kana::Ku),
            9 => Some(Kana::Ke),
            10 => Some(Kana::Ko),
            11 => Some(Kana::Sa),
            12 => Some(Kana::Shi),
            13 => Some(Kana::Su),
            14 => Some(Kana::Se),
            15 => Some(Kana::So),
            16 => Some(Kana::Ta),
            17 => Some(Kana::Chi),
            18 => Some(Kana::Tsu),
            19 => Some(Kana::Te),
            20 => Some(Kana::To),
            21 => Some(Kana::Na),
            22 => Some(Kana::Ni),
            23 => Some(Kana::Nu),
            24 => Some(Kana::Ne),
            25 => Some(Kana::No),
            26 => Some(Kana::Ha),
            27 => Some(Kana::Hi),
            28 => Some(Kana::Fu),
            29 => Some(Kana::He),
            30 => Some(Kana::Ho),
            31 => Some(Kana::Ma),
            32 => Some(Kana::Mi),
            33 => Some(Kana::Mu),
            34 => Some(Kana::Me),
            35 => Some(Kana::Mo),
            36 => Some(Kana::Ya),
            37 => Some(Kana::Yu),
            38 => Some(Kana::Yo),
            39 => Some(Kana::Ra),
            40 => Some(Kana::Ri),
            41 => Some(Kana::Ru),
            42 => Some(Kana::Re),
            43 => Some(Kana::Ro),
            44 => Some(Kana::Wa),
            45 => Some(Kana::Wo),
            46 => Some(Kana::Ga),
            47 => Some(Kana::Gi),
            48 => Some(Kana::Gu),
            49 => Some(Kana::Ge),
            50 => Some(Kana::Go),
            51 => Some(Kana::Za),
            52 => Some(Kana::Ji),
            53 => Some(Kana::Zu),
            54 => Some(Kana::Ze),
            55 => Some(Kana::Zo),
            56 => Some(Kana::Da),
            57 => Some(Kana::Dji),
            58 => Some(Kana::Dzu),
            59 => Some(Kana::De),
            60 => Some(Kana::Do),
            61 => Some(Kana::Ba),
            62 => Some(Kana::Bi),
            63 => Some(Kana::Bu),
            64 => Some(Kana::Be),
            65 => Some(Kana::Bo),
            66 => Some(Kana::Pa),
            67 => Some(Kana::Pi),
            68 => Some(Kana::Pu),
            69 => Some(Kana::Pe),
            70 => Some(Kana::Po),
            _ => None,
        }
    }

    /// Every symbol of the catalog, in its fixed order.
    pub fn all() -> (symbols: Vec<Kana>)
        ensures
            symbols@ == Kana::catalog(),
    {
        let mut symbols: Vec<Kana> = Vec::new();
        let mut index: usize = 0;
        while index < KANA_COUNT
            invariant
                index <= KANA_COUNT,
                symbols@.len() == index,
                forall|place: int| 0 <= place < index ==> symbols@[place] == Kana::at(place as nat),
            decreases KANA_COUNT - index,
        {
            match Kana::from_index(index) {
                Some(kana) => symbols.push(kana),
                None => {},
            }
            index += 1;
        }
        symbols
    }

    /// The symbol written in hiragana.
    pub fn to_hiragana(&self) -> (glyph: &'static str)
        ensures
            glyph@ == self.hiragana_text(),
    {
        match self {
            Kana::N => "ん",
            Kana::A => "あ",
            Kana::I => "い",
            Kana::U => "う",
            Kana::E => "え",
            Kana::O => "お",
            Kana::Ka => "か",
            Kana::Ki => "き",
            Kana::Ku => "く",
            Kana::Ke => "け",
            Kana::Ko => "こ",
            Kana::Sa => "さ",
            Kana::Shi => "し",
            Kana::Su => "す",
            Kana::Se => "せ",
            Kana::So => "そ",
            Kana::Ta => "た",
            Kana::Chi => "ち",
            Kana::Tsu => "つ",
            Kana::Te => "て",
            Kana::To => "と",
            Kana::Na => "な",
            Kana::Ni => "に",
            Kana::Nu => "ぬ",
            Kana::Ne => "ね",
            Kana::No => "の",
            Kana::Ha => "は",
            Kana::Hi => "ひ",
            Kana::Fu => "ふ",
            Kana::He => "へ",
            Kana::Ho => "ほ",
            Kana::Ma => "ま",
            Kana::Mi => "み",
            Kana::Mu => "む",
            Kana::Me => "め",
            Kana::Mo => "も",
            Kana::Ya => "や",
            Kana::Yu => "ゆ",
            Kana::Yo => "よ",
            Kana::Ra => "ら",
            Kana::Ri => "り",
            Kana::Ru => "る",
            Kana::Re => "れ",
            Kana::Ro => "ろ",
            Kana::Wa => "わ",
            Kana::Wo => "を",
            Kana::Ga => "が",
            Kana::Gi => "ぎ",
            Kana::Gu => "ぐ",
            Kana::Ge => "げ",
            Kana::Go => "ご",
            Kana::Za => "ざ",
            Kana::Ji => "じ",
            Kana::Zu => "ず",
            Kana::Ze => "ぜ",
            Kana::Zo => "ぞ",
            Kana::Da => "だ",
            Kana::Dji => "ぢ",
            Kana::Dzu => "づ",
            Kana::De => "で",
            Kana::Do => "ど",
            Kana::Ba => "ば",
            Kana::Bi => "び",
            Kana::Bu => "ぶ",
            Kana::Be => "べ",
            Kana::Bo => "ぼ",
            Kana::Pa => "ぱ",
            Kana::Pi => "ぴ",
            Kana::Pu => "ぷ",
            Kana::Pe => "ぺ",
            Kana::Po => "ぽ",
        }
    }

    /// The symbol written in katakana.
    pub fn to_katakana(&self) -> (glyph: &'static str)
        ensures
            glyph@ == self.katakana_text(),
    {
        match self {
            Kana::N => "ン",
            Kana::A => "ア",
            Kana::I => "イ",
            Kana::U => "ウ",
            Kana::E => "エ",
            Kana::O => "オ",
            Kana::Ka => "カ",
            Kana::Ki => "キ",
            Kana::Ku => "ク",
            Kana::Ke => "ケ",
            Kana::Ko => "コ",
            Kana::Sa => "サ",
            Kana::Shi => "シ",
            Kana::Su => "ス",
            Kana::Se => "セ",
            Kana::So => "ソ",
            Kana::Ta => "タ",
            Kana::Chi => "チ",
            Kana::Tsu => "ツ",
            Kana::Te => "テ",
            Kana::To => "ト",
            Kana::Na => "ナ",
            Kana::Ni => "ニ",
            Kana::Nu => "ヌ",
            Kana::Ne => "ネ",
            Kana::No => "ノ",
            Kana::Ha => "ハ",
            Kana::Hi => "ヒ",
            Kana::Fu => "フ",
            Kana::He => "ヘ",
            Kana::Ho => "ホ",
            Kana::Ma => "マ",
            Kana::Mi => "ミ",
            Kana::Mu => "ム",
            Kana::Me => "メ",
            Kana::Mo => "モ",
            Kana::Ya => "ヤ",
            Kana::Yu => "ユ",
            Kana::Yo => "ヨ",
            Kana::Ra => "ラ",
            Kana::Ri => "リ",
            Kana::Ru => "ル",
            Kana::Re => "レ",
            Kana::Ro => "ロ",
            Kana::Wa => "ワ",
            Kana::Wo => "ヲ",
            Kana::Ga => "ガ",
            Kana::Gi => "ギ",
            Kana::Gu => "グ",
            Kana::Ge => "ゲ",
            Kana::Go => "ゴ",
            Kana::Za => "ザ",
            Kana::Ji => "ジ",
            Kana::Zu => "ズ",
            Kana::Ze => "ゼ",
            Kana::Zo => "ゾ",
            Kana::Da => "ダ",
            Kana::Dji => "ヂ",
            Kana::Dzu => "ヅ",
            Kana::De => "デ",
            Kana::Do => "ド",
            Kana::Ba => "バ",
            Kana::Bi => "ビ",
            Kana::Bu => "ブ",
            Kana::Be => "ベ",
            Kana::Bo => "ボ",
            Kana::Pa => "パ",
            Kana::Pi => "ピ",
            Kana::Pu => "プ",
            Kana::Pe => "ペ",
            Kana::Po => "ポ",
        }
    }

    /// The symbol as it is drawn in the given script.
    pub fn glyph(&self, representation: KanaRepresentation) -> (glyph: &'static str)
        ensures
            glyph@ == self.glyph_text(representation),
    {
        match representation {
            KanaRepresentation::Hiragana => self.to_hiragana(),
            KanaRepresentation::Katakana => self.to_katakana(),
        }
    }

    /// The canonical romanised label of the symbol.
    pub fn romaji(&self) -> (label: &'static str)
        ensures
            label@ == self.romaji_text(),
    {
        match self {
            Kana::N => "n",
            Kana::A => "a",
            Kana::I => "i",
            Kana::U => "u",
            Kana::E => "e",
            Kana::O => "o",
            Kana::Ka => "ka",
            Kana::Ki => "ki",
            Kana::Ku => "ku",
            Kana::Ke => "ke",
            Kana::Ko => "ko",
            Kana::Sa => "sa",
            Kana::Shi => "shi",
            Kana::Su => "su",
            Kana::Se => "se",
            Kana::So => "so",
            Kana::Ta => "ta",
            Kana::Chi => "chi",
            Kana::Tsu => "tsu",
            Kana::Te => "te",
            Kana::To => "to",
            Kana::Na => "na",
            Kana::Ni => "ni",
            Kana::Nu => "nu",
            Kana::Ne => "ne",
            Kana::No => "no",
            Kana::Ha => "ha",
            Kana::Hi => "hi",
            Kana::Fu => "fu",
            Kana::He => "he",
            Kana::Ho => "ho",
            Kana::Ma => "ma",
            Kana::Mi => "mi",
            Kana::Mu => "mu",
            Kana::Me => "me",
            Kana::Mo => "mo",
            Kana::Ya => "ya",
            Kana::Yu => "yu",
            Kana::Yo => "yo",
            Kana::Ra => "ra",
            Kana::Ri => "ri",
            Kana::Ru => "ru",
            Kana::Re => "re",
            Kana::Ro => "ro",
            Kana::Wa => "wa",
            Kana::Wo => "wo",
            Kana::Ga => "ga",
            Kana::Gi => "gi",
            Kana::Gu => "gu",
            Kana::Ge => "ge",
            Kana::Go => "go",
            Kana::Za => "za",
            Kana::Ji => "ji",
            Kana::Zu => "zu",
            Kana::Ze => "ze",
            Kana::Zo => "zo",
            Kana::Da => "da",
            Kana::Dji => "dji",
            Kana::Dzu => "dzu",
            Kana::De => "de",
            Kana::Do => "do",
            Kana::Ba => "ba",
            Kana::Bi => "bi",
            Kana::Bu => "bu",
            Kana::Be => "be",
            Kana::Bo => "bo",
            Kana::Pa => "pa",
            Kana::Pi => "pi",
            Kana::Pu => "pu",
            Kana::Pe => "pe",
            Kana::Po => "po",
        }
    }

    /// The second spelling that is accepted for the symbol, where there is one.
    pub fn alternate_romaji(&self) -> (label: Option<&'static str>)
        ensures
            label is Some <==> self.alternate_text() is Some,
            label matches Some(text) ==> self.alternate_text() == Some(text@),
    {
        match self {
            Kana::Chi => Some("tchi"),
            Kana::Dji => Some("ji"),
            _ => None,
        }
    }
}

impl ValidateAnswer for Kana {
    /// An answer is right when it is the canonical label or the alternate
    /// spelling of the symbol, letter for letter.
    open spec fn accepts(&self, answer: Seq<char>) -> bool {
        answer == self.romaji_text() || self.alternate_text() == Some(answer)
    }

    fn validate_answer(&self, answer: &str) -> (ok: bool) {
        let given = String::from_str(answer);
        if given == String::from_str(self.romaji()) {
            true
        } else {
            match self.alternate_romaji() {
                Some(alternate) => given == String::from_str(alternate),
                None => false,
            }
        }
    }
}

/// The catalog holds every symbol once: a symbol stands at its own ordinal,
/// and no two places hold the same symbol.
pub proof fn lemma_catalog_complete()
    ensures
        Kana::catalog().len() == KANA_COUNT,
        Kana::catalog().no_duplicates(),
        forall|kana: Kana|
            #![trigger kana.ordinal()]
            kana.ordinal() < KANA_COUNT && Kana::catalog()[kana.ordinal() as int] == kana,
        forall|kana: Kana| #[trigger] Kana::catalog().contains(kana),
{
    assert forall|kana: Kana|
        #![trigger kana.ordinal()]
        kana.ordinal() < KANA_COUNT && Kana::catalog()[kana.ordinal() as int] == kana by {
        assert(Kana::at(kana.ordinal()) == kana);
    }
    assert forall|kana: Kana| #[trigger] Kana::catalog().contains(kana) by {
        assert(Kana::catalog()[kana.ordinal() as int] == kana);
    }
    assert forall|i: int, j: int|
        0 <= i < Kana::catalog().len() && 0 <= j < Kana::catalog().len() && i != j implies Kana::catalog()[i]
        != Kana::catalog()[j] by {
        assert(Kana::at(i as nat).ordinal() == i);
        assert(Kana::at(j as nat).ordinal() == j);
    }
}

/// The canonical label of a symbol is accepted for it, so is its alternate
/// spelling where it has one, and no other text is. Two symbols have an
/// alternate spelling, and it differs from their canonical label.
pub proof fn lemma_oracle_exact(kana: Kana, answer: Seq<char>)
    ensures
        kana.accepts(kana.romaji_text()),
        kana.alternate_text() matches Some(alternate) ==> kana.accepts(alternate) && alternate
            != kana.romaji_text(),
        answer != kana.romaji_text() && kana.alternate_text() != Some(answer) ==> !kana.accepts(
            answer,
        ),
        kana.alternate_text() is Some <==> kana == Kana::Chi || kana == Kana::Dji,
        Kana::Chi.accepts("chi"@) && Kana::Chi.accepts("tchi"@),
        Kana::Dji.accepts("dji"@) && Kana::Dji.accepts("ji"@),
{
    reveal_strlit("chi");
    reveal_strlit("tchi");
    reveal_strlit("dji");
    reveal_strlit("ji");
    assert("chi"@.len() == 3 && "tchi"@.len() == 4);
    assert("dji"@.len() == 3 && "ji"@.len() == 2);
}

/// No symbol has an empty label or an empty alternate spelling, so an empty
/// answer is never accepted.
pub proof fn lemma_empty_answer_rejected(kana: Kana)
    ensures
        kana.romaji_text().len() > 0,
        kana.alternate_text() matches Some(alternate) ==> alternate.len() > 0,
        !kana.accepts(Seq::<char>::empty()),
{
    reveal_strlit("tchi");
    reveal_strlit("ji");
    assert(Seq::<char>::empty().len() == 0);
    assert("tchi"@.len() == 4 && "ji"@.len() == 2);
    match kana {
        Kana::N => reveal_strlit("n"),
        Kana::A => reveal_strlit("a"),
        Kana::I => reveal_strlit("i"),
        Kana::U => reveal_strlit("u"),
        Kana::E => reveal_strlit("e"),
        Kana::O => reveal_strlit("o"),
        Kana::Ka => reveal_strlit("ka"),
        Kana::Ki => reveal_strlit("ki"),
        Kana::Ku => reveal_strlit("ku"),
        Kana::Ke => reveal_strlit("ke"),
        Kana::Ko => reveal_strlit("ko"),
        Kana::Sa => reveal_strlit("sa"),
        Kana::Shi => reveal_strlit("shi"),
        Kana::Su => reveal_strlit("su"),
        Kana::Se => reveal_strlit("se"),
        Kana::So => reveal_strlit("so"),
        Kana::Ta => reveal_strlit("ta"),
        Kana::Chi => reveal_strlit("chi"),
        Kana::Tsu => reveal_strlit("tsu"),
        Kana::Te => reveal_strlit("te"),
        Kana::To => reveal_strlit("to"),
        Kana::Na => reveal_strlit("na"),
        Kana::Ni => reveal_strlit("ni"),
        Kana::Nu => reveal_strlit("nu"),
        Kana::Ne => reveal_strlit("ne"),
        Kana::No => reveal_strlit("no"),
        Kana::Ha => reveal_strlit("ha"),
        Kana::Hi => reveal_strlit("hi"),
        Kana::Fu => reveal_strlit("fu"),
        Kana::He => reveal_strlit("he"),
        Kana::Ho => reveal_strlit("ho"),
        Kana::Ma => reveal_strlit("ma"),
        Kana::Mi => reveal_strlit("mi"),
        Kana::Mu => reveal_strlit("mu"),
        Kana::Me => reveal_strlit("me"),
        Kana::Mo => reveal_strlit("mo"),
        Kana::Ya => reveal_strlit("ya"),
        Kana::Yu => reveal_strlit("yu"),
        Kana::Yo => reveal_strlit("yo"),
        Kana::Ra => reveal_strlit("ra"),
        Kana::Ri => reveal_strlit("ri"),
        Kana::Ru => reveal_strlit("ru"),
        Kana::Re => reveal_strlit("re"),
        Kana::Ro => reveal_strlit("ro"),
        Kana::Wa => reveal_strlit("wa"),
        Kana::Wo => reveal_strlit("wo"),
        Kana::Ga => reveal_strlit("ga"),
        Kana::Gi => reveal_strlit("gi"),
        Kana::Gu => reveal_strlit("gu"),
        Kana::Ge => reveal_strlit("ge"),
        Kana::Go => reveal_strlit("go"),
        Kana::Za => reveal_strlit("za"),
        Kana::Ji => reveal_strlit("ji"),
        Kana::Zu => reveal_strlit("zu"),
        Kana::Ze => reveal_strlit("ze"),
        Kana::Zo => reveal_strlit("zo"),
        Kana::Da => reveal_strlit("da"),
        Kana::Dji => reveal_strlit("dji"),
        Kana::Dzu => reveal_strlit("dzu"),
        Kana::De => reveal_strlit("de"),
        Kana::Do => reveal_strlit("do"),
        Kana::Ba => reveal_strlit("ba"),
        Kana::Bi => reveal_strlit("bi"),
        Kana::Bu => reveal_strlit("bu"),
        Kana::Be => reveal_strlit("be"),
        Kana::Bo => reveal_strlit("bo"),
        Kana::Pa => reveal_strlit("pa"),
        Kana::Pi => reveal_strlit("pi"),
        Kana::Pu => reveal_strlit("pu"),
        Kana::Pe => reveal_strlit("pe"),
        Kana::Po => reveal_strlit("po"),
    }
}

/// Every symbol is one character in either script, and its katakana form
/// lies 0x60 code points above its hiragana form.
pub proof fn lemma_scripts_run_parallel(kana: Kana)
    ensures
        kana.hiragana_text().len() == 1,
        kana.katakana_text().len() == 1,
        kana.katakana_text()[0] as u32 == kana.hiragana_text()[0] as u32 + 0x60,
{
    match kana {
        Kana::N => {
            reveal_strlit("ん");
            reveal_strlit("ン");
        },
        Kana::A => {
            reveal_strlit("あ");
            reveal_strlit("ア");
        },
        Kana::I => {
            reveal_strlit("い");
            reveal_strlit("イ");
        },
        Kana::U => {
            reveal_strlit("う");
            reveal_strlit("ウ");
        },
        Kana::E => {
            reveal_strlit("え");
            reveal_strlit("エ");
        },
        Kana::O => {
            reveal_strlit("お");
            reveal_strlit("オ");
        },
        Kana::Ka => {
            reveal_strlit("か");
            reveal_strlit("カ");
        },
        Kana::Ki => {
            reveal_strlit("き");
            reveal_strlit("キ");
        },
        Kana::Ku => {
            reveal_strlit("く");
            reveal_strlit("ク");
        },
        Kana::Ke => {
            reveal_strlit("け");
            reveal_strlit("ケ");
        },
        Kana::Ko => {
            reveal_strlit("こ");
            reveal_strlit("コ");
        },
        Kana::Sa => {
            reveal_strlit("さ");
            reveal_strlit("サ");
        },
        Kana::Shi => {
            reveal_strlit("し");
            reveal_strlit("シ");
        },
        Kana::Su => {
            reveal_strlit("す");
            reveal_strlit("ス");
        },
        Kana::Se => {
            reveal_strlit("せ");
            reveal_strlit("セ");
        },
        Kana::So => {
            reveal_strlit("そ");
            reveal_strlit("ソ");
        },
        Kana::Ta => {
            reveal_strlit("た");
            reveal_strlit("タ");
        },
        Kana::Chi => {
            reveal_strlit("ち");
            reveal_strlit("チ");
        },
        Kana::Tsu => {
            reveal_strlit("つ");
            reveal_strlit("ツ");
        },
        Kana::Te => {
            reveal_strlit("て");
            reveal_strlit("テ");
        },
        Kana::To => {
            reveal_strlit("と");
            reveal_strlit("ト");
        },
        Kana::Na => {
            reveal_strlit("な");
            reveal_strlit("ナ");
        },
        Kana::Ni => {
            reveal_strlit("に");
            reveal_strlit("ニ");
        },
        Kana::Nu => {
            reveal_strlit("ぬ");
            reveal_strlit("ヌ");
        },
        Kana::Ne => {
            reveal_strlit("ね");
            reveal_strlit("ネ");
        },
        Kana::No => {
            reveal_strlit("の");
            reveal_strlit("ノ");
        },
        Kana::Ha => {
            reveal_strlit("は");
            reveal_strlit("ハ");
        },
        Kana::Hi => {
            reveal_strlit("ひ");
            reveal_strlit("ヒ");
        },
        Kana::Fu => {
            reveal_strlit("ふ");
            reveal_strlit("フ");
        },
        Kana::He => {
            reveal_strlit("へ");
            reveal_strlit("ヘ");
        },
        Kana::Ho => {
            reveal_strlit("ほ");
            reveal_strlit("ホ");
        },
        Kana::Ma => {
            reveal_strlit("ま");
            reveal_strlit("マ");
        },
        Kana::Mi => {
            reveal_strlit("み");
            reveal_strlit("ミ");
        },
        Kana::Mu => {
            reveal_strlit("む");
            reveal_strlit("ム");
        },
        Kana::Me => {
            reveal_strlit("め");
            reveal_strlit("メ");
        },
        Kana::Mo => {
            reveal_strlit("も");
            reveal_strlit("モ");
        },
        Kana::Ya => {
            reveal_strlit("や");
            reveal_strlit("ヤ");
        },
        Kana::Yu => {
            reveal_strlit("ゆ");
            reveal_strlit("ユ");
        },
        Kana::Yo => {
            reveal_strlit("よ");
            reveal_strlit("ヨ");
        },
        Kana::Ra => {
            reveal_strlit("ら");
            reveal_strlit("ラ");
        },
        Kana::Ri => {
            reveal_strlit("り");
            reveal_strlit("リ");
        },
        Kana::Ru => {
            reveal_strlit("る");
            reveal_strlit("ル");
        },
        Kana::Re => {
            reveal_strlit("れ");
            reveal_strlit("レ");
        },
        Kana::Ro => {
            reveal_strlit("ろ");
            reveal_strlit("ロ");
        },
        Kana::Wa => {
            reveal_strlit("わ");
            reveal_strlit("ワ");
        },
        Kana::Wo => {
            reveal_strlit("を");
            reveal_strlit("ヲ");
        },
        Kana::Ga => {
            reveal_strlit("が");
            reveal_strlit("ガ");
        },
        Kana::Gi => {
            reveal_strlit("ぎ");
            reveal_strlit("ギ");
        },
        Kana::Gu => {
            reveal_strlit("ぐ");
            reveal_strlit("グ");
        },
        Kana::Ge => {
            reveal_strlit("げ");
            reveal_strlit("ゲ");
        },
        Kana::Go => {
            reveal_strlit("ご");
            reveal_strlit("ゴ");
        },
        Kana::Za => {
            reveal_strlit("ざ");
            reveal_strlit("ザ");
        },
        Kana::Ji => {
            reveal_strlit("じ");
            reveal_strlit("ジ");
        },
        Kana::Zu => {
            reveal_strlit("ず");
            reveal_strlit("ズ");
        },
        Kana::Ze => {
            reveal_strlit("ぜ");
            reveal_strlit("ゼ");
        },
        Kana::Zo => {
            reveal_strlit("ぞ");
            reveal_strlit("ゾ");
        },
        Kana::Da => {
            reveal_strlit("だ");
            reveal_strlit("ダ");
        },
        Kana::Dji => {
            reveal_strlit("ぢ");
            reveal_strlit("ヂ");
        },
        Kana::Dzu => {
            reveal_strlit("づ");
            reveal_strlit("ヅ");
        },
        Kana::De => {
            reveal_strlit("で");
            reveal_strlit("デ");
        },
        Kana::Do => {
            reveal_strlit("ど");
            reveal_strlit("ド");
        },
        Kana::Ba => {
            reveal_strlit("ば");
            reveal_strlit("バ");
        },
        Kana::Bi => {
            reveal_strlit("び");
            reveal_strlit("ビ");
        },
        Kana::Bu => {
            reveal_strlit("ぶ");
            reveal_strlit("ブ");
        },
        Kana::Be => {
            reveal_strlit("べ");
            reveal_strlit("ベ");
        },
        Kana::Bo => {
            reveal_strlit("ぼ");
            reveal_strlit("ボ");
        },
        Kana::Pa => {
            reveal_strlit("ぱ");
            reveal_strlit("パ");
        },
        Kana::Pi => {
            reveal_strlit("ぴ");
            reveal_strlit("ピ");
        },
        Kana::Pu => {
            reveal_strlit("ぷ");
            reveal_strlit("プ");
        },
        Kana::Pe => {
            reveal_strlit("ぺ");
            reveal_strlit("ペ");
        },
        Kana::Po => {
            reveal_strlit("ぽ");
            reveal_strlit("ポ");
        },
    }
}

} // verus!
