use vstd::prelude::*;

use crate::mii::{
    field_in_range, FieldLimits, Mii, EYEBROW_ASPECT, EYEBROW_ROTATE, EYEBROW_SCALE, EYEBROW_TYPE, EYEBROW_X, EYEBROW_Y,
    EYE_ASPECT, EYE_ROTATE, EYE_SCALE, EYE_TYPE, EYE_X, EYE_Y, MOUTH_ASPECT, MOUTH_SCALE,
    MOUTH_TYPE, MOUTH_Y, MUSTACHE_TYPE,
};

verus! {

/// Number of facial expressions.
pub const EXPRESSION_COUNT: usize = 70;

/// Facial expression rendered on a Mii.
///
/// Variants through [`Frustrated`](Self::Frustrated) use the names exposed by
/// FFL. Later variants use descriptive AFL/Miitomo names where those are known.
/// Neutral `Afl` names are retained where no reliable internal name is known.
/// Each variant has the number of its position, 0 through 69.
#[derive(Clone, Copy, Debug, PartialEq, Eq, Structural)]
pub enum Expression {
    Normal,
    Smile,
    Anger,
    Sorrow,
    Surprise,
    Blink,
    OpenMouth,
    SmileOpenMouth,
    AngerOpenMouth,
    SorrowOpenMouth,
    SurpriseOpenMouth,
    BlinkOpenMouth,
    WinkLeft,
    WinkRight,
    WinkLeftOpenMouth,
    WinkRightOpenMouth,
    LikeWinkLeft,
    LikeWinkRight,
    Frustrated,
    Bored,
    BoredOpenMouth,
    SighMouthStraight,
    Sigh,
    DisgustedMouthStraight,
    Disgusted,
    Love,
    LoveOpenMouth,
    DeterminedMouthStraight,
    Determined,
    CryMouthStraight,
    Cry,
    BigSmileMouthStraight,
    BigSmile,
    Cheeky,
    CheekyDuplicate,
    /// AFL expression 35, whose internal name is unknown.
    Afl35,
    /// AFL expression 36, whose internal name is unknown.
    Afl36,
    Smug,
    SmugOpenMouth,
    Resolve,
    ResolveOpenMouth,
    Unbelievable,
    UnbelievableDuplicate,
    Cunning,
    CunningDuplicate,
    Raspberry,
    RaspberryDuplicate,
    Innocent,
    InnocentDuplicate,
    Cat,
    CatDuplicate,
    Dog,
    DogDuplicate,
    Tasty,
    TastyDuplicate,
    MoneyMouthStraight,
    Money,
    ConfusedMouthStraight,
    Confused,
    CheerfulMouthStraight,
    Cheerful,
    /// AFL expression 61, which produces a blank expression mask.
    Afl61,
    /// AFL expression 62, which produces a duplicate blank expression mask.
    Afl62,
    GrumbleMouthStraight,
    Grumble,
    MovedMouthStraight,
    Moved,
    SingingMouthSmall,
    Singing,
    Stunned,
}

impl Expression {
    /// The number of this expression.
    pub open spec fn spec_code(self) -> u8 {
        match self {
            Expression::Normal => 0,
            Expression::Smile => 1,
            Expression::Anger => 2,
            Expression::Sorrow => 3,
            Expression::Surprise => 4,
            Expression::Blink => 5,
            Expression::OpenMouth => 6,
            Expression::SmileOpenMouth => 7,
            Expression::AngerOpenMouth => 8,
            Expression::SorrowOpenMouth => 9,
            Expression::SurpriseOpenMouth => 10,
            Expression::BlinkOpenMouth => 11,
            Expression::WinkLeft => 12,
            Expression::WinkRight => 13,
            Expression::WinkLeftOpenMouth => 14,
            Expression::WinkRightOpenMouth => 15,
            Expression::LikeWinkLeft => 16,
            Expression::LikeWinkRight => 17,
            Expression::Frustrated => 18,
            Expression::Bored => 19,
            Expression::BoredOpenMouth => 20,
            Expression::SighMouthStraight => 21,
            Expression::Sigh => 22,
            Expression::DisgustedMouthStraight => 23,
            Expression::Disgusted => 24,
            Expression::Love => 25,
            Expression::LoveOpenMouth => 26,
            Expression::DeterminedMouthStraight => 27,
            Expression::Determined => 28,
            Expression::CryMouthStraight => 29,
            Expression::Cry => 30,
            Expression::BigSmileMouthStraight => 31,
            Expression::BigSmile => 32,
            Expression::Cheeky => 33,
            Expression::CheekyDuplicate => 34,
            Expression::Afl35 => 35,
            Expression::Afl36 => 36,
            Expression::Smug => 37,
            Expression::SmugOpenMouth => 38,
            Expression::Resolve => 39,
            Expression::ResolveOpenMouth => 40,
            Expression::Unbelievable => 41,
            Expression::UnbelievableDuplicate => 42,
            Expression::Cunning => 43,
            Expression::CunningDuplicate => 44,
            Expression::Raspberry => 45,
            Expression::RaspberryDuplicate => 46,
            Expression::Innocent => 47,
            Expression::InnocentDuplicate => 48,
            Expression::Cat => 49,
            Expression::CatDuplicate => 50,
            Expression::Dog => 51,
            Expression::DogDuplicate => 52,
            Expression::Tasty => 53,
            Expression::TastyDuplicate => 54,
            Expression::MoneyMouthStraight => 55,
            Expression::Money => 56,
            Expression::ConfusedMouthStraight => 57,
            Expression::Confused => 58,
            Expression::CheerfulMouthStraight => 59,
            Expression::Cheerful => 60,
            Expression::Afl61 => 61,
            Expression::Afl62 => 62,
            Expression::GrumbleMouthStraight => 63,
            Expression::Grumble => 64,
            Expression::MovedMouthStraight => 65,
            Expression::Moved => 66,
            Expression::SingingMouthSmall => 67,
            Expression::Singing => 68,
            Expression::Stunned => 69,
        }
    }

    /// The number of this expression.
    pub fn code(self) -> (res: u8)
        ensures
            res == self.spec_code(),
            res < 70,
    {
        match self {
            Expression::Normal => 0,
            Expression::Smile => 1,
            Expression::Anger => 2,
            Expression::Sorrow => 3,
            Expression::Surprise => 4,
            Expression::Blink => 5,
            Expression::OpenMouth => 6,
            Expression::SmileOpenMouth => 7,
            Expression::AngerOpenMouth => 8,
            Expression::SorrowOpenMouth => 9,
            Expression::SurpriseOpenMouth => 10,
            Expression::BlinkOpenMouth => 11,
            Expression::WinkLeft => 12,
            Expression::WinkRight => 13,
            Expression::WinkLeftOpenMouth => 14,
            Expression::WinkRightOpenMouth => 15,
            Expression::LikeWinkLeft => 16,
            Expression::LikeWinkRight => 17,
            Expression::Frustrated => 18,
            Expression::Bored => 19,
            Expression::BoredOpenMouth => 20,
            Expression::SighMouthStraight => 21,
            Expression::Sigh => 22,
            Expression::DisgustedMouthStraight => 23,
            Expression::Disgusted => 24,
            Expression::Love => 25,
            Expression::LoveOpenMouth => 26,
            Expression::DeterminedMouthStraight => 27,
            Expression::Determined => 28,
            Expression::CryMouthStraight => 29,
            Expression::Cry => 30,
            Expression::BigSmileMouthStraight => 31,
            Expression::BigSmile => 32,
            Expression::Cheeky => 33,
            Expression::CheekyDuplicate => 34,
            Expression::Afl35 => 35,
            Expression::Afl36 => 36,
            Expression::Smug => 37,
            Expression::SmugOpenMouth => 38,
            Expression::Resolve => 39,
            Expression::ResolveOpenMouth => 40,
            Expression::Unbelievable => 41,
            Expression::UnbelievableDuplicate => 42,
            Expression::Cunning => 43,
            Expression::CunningDuplicate => 44,
            Expression::Raspberry => 45,
            Expression::RaspberryDuplicate => 46,
            Expression::Innocent => 47,
            Expression::InnocentDuplicate => 48,
            Expression::Cat => 49,
            Expression::CatDuplicate => 50,
            Expression::Dog => 51,
            Expression::DogDuplicate => 52,
            Expression::Tasty => 53,
            Expression::TastyDuplicate => 54,
            Expression::MoneyMouthStraight => 55,
            Expression::Money => 56,
            Expression::ConfusedMouthStraight => 57,
            Expression::Confused => 58,
            Expression::CheerfulMouthStraight => 59,
            Expression::Cheerful => 60,
            Expression::Afl61 => 61,
            Expression::Afl62 => 62,
            Expression::GrumbleMouthStraight => 63,
            Expression::Grumble => 64,
            Expression::MovedMouthStraight => 65,
            Expression::Moved => 66,
            Expression::SingingMouthSmall => 67,
            Expression::Singing => 68,
            Expression::Stunned => 69,
        }
    }

    /// Converts an expression number; numbers from 70 on are handed back.
    pub fn try_from(value: u8) -> (res: Result<Expression, u8>)
        ensures
            value < 70 ==> (res matches Ok(e) && e.spec_code() == value),
            value < 70 ==> res == Ok::<Expression, u8>(expression_with_code(value)),
            value >= 70 ==> res == Err::<Expression, u8>(value),
    {
        match value {
            0 => Ok(Expression::Normal),
            1 => Ok(Expression::Smile),
            2 => Ok(Expression::Anger),
            3 => Ok(Expression::Sorrow),
            4 => Ok(Expression::Surprise),
            5 => Ok(Expression::Blink),
            6 => Ok(Expression::OpenMouth),
            7 => Ok(Expression::SmileOpenMouth),
            8 => Ok(Expression::AngerOpenMouth),
            9 => Ok(Expression::SorrowOpenMouth),
            10 => Ok(Expression::SurpriseOpenMouth),
            11 => Ok(Expression::BlinkOpenMouth),
            12 => Ok(Expression::WinkLeft),
            13 => Ok(Expression::WinkRight),
            14 => Ok(Expression::WinkLeftOpenMouth),
            15 => Ok(Expression::WinkRightOpenMouth),
            16 => Ok(Expression::LikeWinkLeft),
            17 => Ok(Expression::LikeWinkRight),
            18 => Ok(Expression::Frustrated),
            19 => Ok(Expression::Bored),
            20 => Ok(Expression::BoredOpenMouth),
            21 => Ok(Expression::SighMouthStraight),
            22 => Ok(Expression::Sigh),
            23 => Ok(Expression::DisgustedMouthStraight),
            24 => Ok(Expression::Disgusted),
            25 => Ok(Expression::Love),
            26 => Ok(Expression::LoveOpenMouth),
            27 => Ok(Expression::DeterminedMouthStraight),
            28 => Ok(Expression::Determined),
            29 => Ok(Expression::CryMouthStraight),
            30 => Ok(Expression::Cry),
            31 => Ok(Expression::BigSmileMouthStraight),
            32 => Ok(Expression::BigSmile),
            33 => Ok(Expression::Cheeky),
            34 => Ok(Expression::CheekyDuplicate),
            35 => Ok(Expression::Afl35),
            36 => Ok(Expression::Afl36),
            37 => Ok(Expression::Smug),
            38 => Ok(Expression::SmugOpenMouth),
            39 => Ok(Expression::Resolve),
            40 => Ok(Expression::ResolveOpenMouth),
            41 => Ok(Expression::Unbelievable),
            42 => Ok(Expression::UnbelievableDuplicate),
            43 => Ok(Expression::Cunning),
            44 => Ok(Expression::CunningDuplicate),
            45 => Ok(Expression::Raspberry),
            46 => Ok(Expression::RaspberryDuplicate),
            47 => Ok(Expression::Innocent),
            48 => Ok(Expression::InnocentDuplicate),
            49 => Ok(Expression::Cat),
            50 => Ok(Expression::CatDuplicate),
            51 => Ok(Expression::Dog),
            52 => Ok(Expression::DogDuplicate),
            53 => Ok(Expression::Tasty),
            54 => Ok(Expression::TastyDuplicate),
            55 => Ok(Expression::MoneyMouthStraight),
            56 => Ok(Expression::Money),
            57 => Ok(Expression::ConfusedMouthStraight),
            58 => Ok(Expression::Confused),
            59 => Ok(Expression::CheerfulMouthStraight),
            60 => Ok(Expression::Cheerful),
            61 => Ok(Expression::Afl61),
            62 => Ok(Expression::Afl62),
            63 => Ok(Expression::GrumbleMouthStraight),
            64 => Ok(Expression::Grumble),
            65 => Ok(Expression::MovedMouthStraight),
            66 => Ok(Expression::Moved),
            67 => Ok(Expression::SingingMouthSmall),
            68 => Ok(Expression::Singing),
            69 => Ok(Expression::Stunned),
            _ => Err(value),
        }
    }
}

/// The expression numbered `code`, for `code` below 70.
pub open spec fn expression_with_code(code: u8) -> Expression {
    match code {
        0 => Expression::Normal,
        1 => Expression::Smile,
        2 => Expression::Anger,
        3 => Expression::Sorrow,
        4 => Expression::Surprise,
        5 => Expression::Blink,
        6 => Expression::OpenMouth,
        7 => Expression::SmileOpenMouth,
        8 => Expression::AngerOpenMouth,
        9 => Expression::SorrowOpenMouth,
        10 => Expression::SurpriseOpenMouth,
        11 => Expression::BlinkOpenMouth,
        12 => Expression::WinkLeft,
        13 => Expression::WinkRight,
        14 => Expression::WinkLeftOpenMouth,
        15 => Expression::WinkRightOpenMouth,
        16 => Expression::LikeWinkLeft,
        17 => Expression::LikeWinkRight,
        18 => Expression::Frustrated,
        19 => Expression::Bored,
        20 => Expression::BoredOpenMouth,
        21 => Expression::SighMouthStraight,
        22 => Expression::Sigh,
        23 => Expression::DisgustedMouthStraight,
        24 => Expression::Disgusted,
        25 => Expression::Love,
        26 => Expression::LoveOpenMouth,
        27 => Expression::DeterminedMouthStraight,
        28 => Expression::Determined,
        29 => Expression::CryMouthStraight,
        30 => Expression::Cry,
        31 => Expression::BigSmileMouthStraight,
        32 => Expression::BigSmile,
        33 => Expression::Cheeky,
        34 => Expression::CheekyDuplicate,
        35 => Expression::Afl35,
        36 => Expression::Afl36,
        37 => Expression::Smug,
        38 => Expression::SmugOpenMouth,
        39 => Expression::Resolve,
        40 => Expression::ResolveOpenMouth,
        41 => Expression::Unbelievable,
        42 => Expression::UnbelievableDuplicate,
        43 => Expression::Cunning,
        44 => Expression::CunningDuplicate,
        45 => Expression::Raspberry,
        46 => Expression::RaspberryDuplicate,
        47 => Expression::Innocent,
        48 => Expression::InnocentDuplicate,
        49 => Expression::Cat,
        50 => Expression::CatDuplicate,
        51 => Expression::Dog,
        52 => Expression::DogDuplicate,
        53 => Expression::Tasty,
        54 => Expression::TastyDuplicate,
        55 => Expression::MoneyMouthStraight,
        56 => Expression::Money,
        57 => Expression::ConfusedMouthStraight,
        58 => Expression::Confused,
        59 => Expression::CheerfulMouthStraight,
        60 => Expression::Cheerful,
        61 => Expression::Afl61,
        62 => Expression::Afl62,
        63 => Expression::GrumbleMouthStraight,
        64 => Expression::Grumble,
        65 => Expression::MovedMouthStraight,
        66 => Expression::Moved,
        67 => Expression::SingingMouthSmall,
        68 => Expression::Singing,
        _ => Expression::Stunned,
    }
}

/// Numbering expressions is one to one: every expression has a number below
/// 70, and the expression with a given expression's number is that
/// expression.
pub proof fn expression_numbers_round_trip(expression: Expression, code: u8)
    ensures
        expression.spec_code() < 70,
        expression_with_code(expression.spec_code()) == expression,
        code < 70 ==> expression_with_code(code).spec_code() == code,
{
}

impl Default for Expression {
    fn default() -> (res: Expression)
        ensures
            res == Expression::Normal,
    {
        Expression::Normal
    }
}

impl From<Expression> for u8 {
    fn from(expression: Expression) -> (res: u8) {
        expression.code()
    }
}

impl vstd::std_specs::convert::FromSpecImpl<Expression> for u8 {
    open spec fn obeys_from_spec() -> bool {
        true
    }

    open spec fn from_spec(expression: Expression) -> u8 {
        expression.spec_code()
    }
}

/// Texture parts each expression shows: right eye, left eye, mouth and
/// eyebrow kinds (see [`eye_index`], [`mouth_index`]; eyebrow 0 keeps the Mii's).
pub const PARTS: [[u8; 4]; 70] = [
    [0, 0, 0, 0],
    [1, 1, 0, 0],
    [0, 0, 1, 0],
    [2, 2, 2, 0],
    [3, 3, 0, 0],
    [4, 4, 0, 0],
    [0, 0, 3, 0],
    [1, 1, 3, 0],
    [0, 0, 3, 0],
    [2, 2, 3, 0],
    [3, 3, 3, 0],
    [4, 4, 3, 0],
    [5, 0, 0, 0],
    [0, 5, 0, 0],
    [5, 0, 3, 0],
    [0, 5, 3, 0],
    [5, 0, 5, 0],
    [0, 5, 5, 0],
    [5, 5, 2, 0],
    [13, 13, 6, 0],
    [13, 13, 3, 0],
    [4, 4, 6, 0],
    [4, 4, 19, 0],
    [8, 8, 6, 0],
    [8, 8, 15, 0],
    [11, 11, 6, 0],
    [11, 11, 12, 0],
    [0, 0, 6, 0],
    [0, 0, 11, 0],
    [5, 5, 6, 0],
    [5, 5, 19, 0],
    [9, 9, 6, 0],
    [9, 9, 12, 0],
    [8, 24, 18, 0],
    [8, 24, 18, 0],
    [14, 14, 13, 24],
    [14, 14, 14, 24],
    [13, 13, 9, 0],
    [13, 13, 3, 0],
    [18, 18, 16, 27],
    [18, 18, 17, 27],
    [12, 12, 20, 0],
    [12, 12, 20, 0],
    [15, 15, 8, 0],
    [15, 15, 8, 0],
    [8, 8, 21, 0],
    [8, 8, 21, 0],
    [24, 23, 10, 0],
    [24, 23, 10, 0],
    [16, 16, 22, 25],
    [16, 16, 22, 25],
    [17, 17, 23, 26],
    [17, 17, 23, 26],
    [0, 0, 24, 0],
    [0, 0, 24, 0],
    [22, 21, 6, 0],
    [22, 21, 12, 0],
    [20, 19, 6, 0],
    [20, 19, 19, 0],
    [7, 7, 6, 0],
    [7, 7, 12, 0],
    [0, 0, 0, 0],
    [0, 0, 0, 0],
    [0, 0, 6, 13],
    [0, 0, 20, 13],
    [26, 25, 6, 0],
    [26, 25, 12, 0],
    [28, 28, 25, 0],
    [28, 28, 25, 0],
    [27, 27, 7, 0],
];

/// Field corrections each expression applies: replacement eye type and mouth
/// type (negative for none), then offsets to eye rotation, eyebrow rotation
/// and eyebrow height.
pub const CORRECTIONS: [[i8; 5]; 70] = [
    [-1, -1, 0, 0, 0],
    [60, -1, 0, 0, 0],
    [-1, 10, 2, 2, 0],
    [-1, 12, -2, -2, 0],
    [61, -1, 0, 0, -2],
    [26, -1, 0, 0, 0],
    [-1, 36, 0, 0, 0],
    [60, 36, 0, 0, 0],
    [-1, 36, 2, 2, 0],
    [-1, 36, -2, -2, 0],
    [61, 36, 0, 0, -2],
    [26, 36, 0, 0, 0],
    [47, -1, 0, 0, 0],
    [47, -1, 0, 0, 0],
    [47, 36, 0, 0, 0],
    [47, 36, 0, 0, 0],
    [47, -1, 0, 0, 0],
    [47, -1, 0, 0, 0],
    [47, 12, 0, 0, 0],
    [64, 23, 0, 0, 0],
    [64, 36, 0, 0, 0],
    [26, 23, -2, -2, -2],
    [26, 45, -2, -2, -2],
    [47, 23, 2, 2, 0],
    [47, 41, 2, 2, 0],
    [62, 23, 0, 0, -1],
    [62, 38, 0, 0, -1],
    [-1, 23, 2, 2, 0],
    [-1, 37, 2, 2, 0],
    [47, 23, 0, -2, -3],
    [47, 45, 0, -2, -3],
    [60, 23, 0, 0, 0],
    [60, 38, 0, 0, 0],
    [75, 44, 0, 0, 0],
    [75, 44, 0, 0, 0],
    [65, 39, 0, 1, 0],
    [65, 40, 0, 1, 0],
    [64, 15, 0, 2, 0],
    [64, 36, 0, 2, 0],
    [69, 42, 0, 0, 2],
    [69, 43, 0, 0, 2],
    [63, 46, 0, 2, 0],
    [63, 46, 0, 2, 0],
    [66, 14, 0, 2, 1],
    [66, 14, 0, 2, 1],
    [47, 47, 1, 0, 0],
    [47, 47, 1, 0, 0],
    [74, 32, 0, 0, 0],
    [74, 32, 0, 0, 0],
    [67, 48, 0, 0, -1],
    [67, 48, 0, 0, -1],
    [68, 49, 0, 0, 0],
    [68, 49, 0, 0, 0],
    [-1, 50, 0, 0, 0],
    [-1, 50, 0, 0, 0],
    [72, 23, 0, -2, -3],
    [72, 38, 0, -2, -3],
    [70, 23, 0, -2, -2],
    [70, 45, 0, -2, -2],
    [23, 23, 0, -2, 0],
    [23, 38, 0, -2, 0],
    [-1, -1, 0, 0, 0],
    [-1, -1, 0, 0, 0],
    [-1, 23, 0, -1, -2],
    [-1, 46, 0, -1, -2],
    [76, 23, 0, -2, -3],
    [76, 38, 0, -2, -3],
    [79, 51, 0, 0, 0],
    [79, 51, 0, 0, 0],
    [78, 2, 0, 0, 0],
];

/// Rotation of each eye texture relative to the face, in 32nds of a turn.
pub const EYE_ROTATE_BASE: [u8; 80] = [3, 4, 4, 4, 3, 4, 4, 4, 3, 4, 4, 4, 4, 3, 3, 4, 4, 4, 3, 3, 4, 3, 4, 3, 3, 4, 3, 4, 4, 3, 4, 4, 4, 3, 3, 3, 4, 4, 3, 3, 3, 4, 4, 3, 3, 3, 3, 3, 3, 3, 3, 3, 4, 4, 4, 4, 3, 4, 4, 3, 4, 4, 4, 4, 4, 4, 4, 4, 4, 4, 4, 4, 4, 4, 4, 4, 4, 4, 4, 4];

/// Rotation offset of eye texture `kind`, in 32nds of a turn.
pub open spec fn spec_eye_rotate_offset(kind: u8) -> u8 {
    (32 - EYE_ROTATE_BASE@[kind as int]) as u8
}

/// Rotation offset of eye texture `kind`, in 32nds of a turn.
pub fn eye_rotate_offset(kind: u8) -> (res: u8)
    requires
        kind < 80,
    ensures
        res == spec_eye_rotate_offset(kind),
        28 <= res <= 29,
{
    32 - EYE_ROTATE_BASE[kind as usize]
}

/// The eye texture that an expression's eye kind selects.
pub open spec fn spec_eye_index(kind: u8, own: u8) -> u8 {
    if kind == 0 || kind == 2 {
        own
    } else if kind == 1 || kind == 9 {
        60
    } else if kind == 3 || kind == 10 {
        61
    } else if kind == 4 {
        26
    } else if kind == 5 || kind == 8 {
        47
    } else if kind == 6 {
        18
    } else if kind == 7 {
        23
    } else if kind == 11 {
        62
    } else if 12 <= kind <= 28 {
        (51 + kind) as u8
    } else {
        0
    }
}

/// The eye texture that an expression's eye kind selects.
pub fn eye_index(kind: u8, own: u8) -> (res: u8)
    ensures
        res == spec_eye_index(kind, own),
{
    match kind {
        0 | 2 => own,
        1 | 9 => 60,
        3 | 10 => 61,
        4 => 26,
        5 | 8 => 47,
        6 => 18,
        7 => 23,
        11 => 62,
        12..=28 => 51 + kind,
        _ => 0,
    }
}

/// The mouth texture that an expression's mouth kind selects.
pub open spec fn spec_mouth_index(kind: u8, own: u8) -> u8 {
    if kind == 0 {
        own
    } else if kind == 1 {
        10
    } else if kind == 2 {
        12
    } else if kind == 3 {
        36
    } else if kind == 4 || kind == 5 {
        19
    } else if kind == 6 {
        23
    } else if kind == 7 {
        2
    } else if kind == 8 {
        14
    } else if kind == 9 {
        15
    } else if kind == 10 {
        32
    } else if 11 <= kind <= 25 {
        (26 + kind) as u8
    } else {
        0
    }
}

/// The mouth texture that an expression's mouth kind selects.
pub fn mouth_index(kind: u8, own: u8) -> (res: u8)
    ensures
        res == spec_mouth_index(kind, own),
{
    match kind {
        0 => own,
        1 => 10,
        2 => 12,
        3 => 36,
        4 | 5 => 19,
        6 => 23,
        7 => 2,
        8 => 14,
        9 => 15,
        10 => 32,
        11..=25 => 26 + kind,
        _ => 0,
    }
}

/// The fields after an expression's fixed face dimensions are applied.
pub open spec fn dimensioned(f: Seq<u8>, code: u8) -> Seq<u8> {
    if code == 19 || code == 20 {
        f.update(EYE_SCALE as int, 4).update(EYE_ASPECT as int, 3).update(MOUTH_ASPECT as int, 3).update(
            MOUTH_SCALE as int,
            4,
        )
    } else if code == 45 || code == 46 || code == 53 || code == 54 {
        f.update(MOUTH_ASPECT as int, 3).update(MOUTH_SCALE as int, 4)
    } else if code == 25 || code == 26 || code == 37 || code == 38 || (55 <= code <= 58) {
        f.update(EYE_SCALE as int, 4).update(EYE_ASPECT as int, 3).update(EYE_ROTATE as int, 4)
    } else if code == 33 || code == 34 {
        f.update(EYE_ROTATE as int, 4).update(MOUTH_ASPECT as int, 3).update(MOUTH_SCALE as int, 4)
    } else if code == 35 || code == 36 {
        f.update(EYE_ROTATE as int, 4).update(EYE_ASPECT as int, 3).update(EYE_SCALE as int, 4).update(
            MOUTH_SCALE as int,
            4,
        ).update(MOUTH_ASPECT as int, 3)
    } else if code == 39 || code == 40 {
        f.update(EYE_ROTATE as int, 4).update(EYE_ASPECT as int, 3).update(EYE_SCALE as int, 4).update(
            EYEBROW_ROTATE as int,
            6,
        )
    } else if code == 43 || code == 44 || code == 47 || code == 48 {
        f.update(EYE_ROTATE as int, 4)
    } else if 49 <= code <= 52 {
        f.update(EYE_ROTATE as int, 4).update(EYE_ASPECT as int, 3).update(EYE_SCALE as int, 4).update(
            EYEBROW_SCALE as int,
            4,
        ).update(EYEBROW_ASPECT as int, 3).update(EYEBROW_ROTATE as int, 6).update(
            MOUTH_ASPECT as int,
            3,
        ).update(MOUTH_SCALE as int, 4).update(EYE_X as int, 2).update(EYE_Y as int, 12).update(
            EYEBROW_X as int,
            2,
        ).update(EYEBROW_Y as int, 10).update(MOUTH_Y as int, 13).update(MUSTACHE_TYPE as int, 0)
    } else if code == 67 || code == 68 {
        f.update(MOUTH_ASPECT as int, 3)
    } else if code == 69 {
        f.update(EYE_ASPECT as int, 3)
    } else {
        f
    }
}

/// Applies the fixed face dimensions that some expressions use.
fn apply_expression_dimensions(mii: &mut Mii, expression: Expression)
    ensures
        final(mii).fields@ == dimensioned(old(mii).fields@, expression.spec_code()),
        final(mii).color_mode == old(mii).color_mode,
{
    let ghost before = mii.fields@;
    let code = expression.code();
    match code {
        19 | 20 => {
            mii.fields[EYE_SCALE] = 4;
            mii.fields[EYE_ASPECT] = 3;
            mii.fields[MOUTH_ASPECT] = 3;
            mii.fields[MOUTH_SCALE] = 4;
        },
        45 | 46 | 53 | 54 => {
            mii.fields[MOUTH_ASPECT] = 3;
            mii.fields[MOUTH_SCALE] = 4;
        },
        25 | 26 | 37 | 38 | 55..=58 => {
            mii.fields[EYE_SCALE] = 4;
            mii.fields[EYE_ASPECT] = 3;
            mii.fields[EYE_ROTATE] = 4;
        },
        33 | 34 => {
            mii.fields[EYE_ROTATE] = 4;
            mii.fields[MOUTH_ASPECT] = 3;
            mii.fields[MOUTH_SCALE] = 4;
        },
        35 | 36 => {
            mii.fields[EYE_ROTATE] = 4;
            mii.fields[EYE_ASPECT] = 3;
            mii.fields[EYE_SCALE] = 4;
            mii.fields[MOUTH_SCALE] = 4;
            mii.fields[MOUTH_ASPECT] = 3;
        },
        39 | 40 => {
            mii.fields[EYE_ROTATE] = 4;
            mii.fields[EYE_ASPECT] = 3;
            mii.fields[EYE_SCALE] = 4;
            mii.fields[EYEBROW_ROTATE] = 6;
        },
        43 | 44 | 47 | 48 => {
            mii.fields[EYE_ROTATE] = 4;
        },
        49..=52 => {
            mii.fields[EYE_ROTATE] = 4;
            mii.fields[EYE_ASPECT] = 3;
            mii.fields[EYE_SCALE] = 4;
            mii.fields[EYEBROW_SCALE] = 4;
            mii.fields[EYEBROW_ASPECT] = 3;
            mii.fields[EYEBROW_ROTATE] = 6;
            mii.fields[MOUTH_ASPECT] = 3;
            mii.fields[MOUTH_SCALE] = 4;
            mii.fields[EYE_X] = 2;
            mii.fields[EYE_Y] = 12;
            mii.fields[EYEBROW_X] = 2;
            mii.fields[EYEBROW_Y] = 10;
            mii.fields[MOUTH_Y] = 13;
            mii.fields[MUSTACHE_TYPE] = 0;
        },
        67 | 68 => {
            mii.fields[MOUTH_ASPECT] = 3;
        },
        69 => {
            mii.fields[EYE_ASPECT] = 3;
        },
        _ => {},
    }
    assert(mii.fields@ =~= dimensioned(before, code));
}

/// `value + offset`, held to `0..=maximum`.
pub open spec fn clamped_sum(value: u8, offset: int, maximum: int) -> u8 {
    let sum = value + offset;
    (if sum < 0 {
        0
    } else if sum > maximum {
        maximum
    } else {
        sum
    }) as u8
}

/// Adds a signed offset, holding the result to `0..=maximum`.
pub fn add_clamped(value: u8, offset: i8, maximum: i16) -> (res: u8)
    requires
        0 <= maximum <= 255,
    ensures
        res == clamped_sum(value, offset as int, maximum as int),
{
    let sum = value as i16 + offset as i16;
    if sum < 0 {
        0
    } else if sum > maximum {
        maximum as u8
    } else {
        sum as u8
    }
}

/// Adds a signed offset whose sum stays a byte.
pub fn add_signed(value: u8, offset: i8) -> (res: u8)
    requires
        0 <= value + offset <= 255,
    ensures
        res == value + offset,
{
    (value as i16 + offset as i16) as u8
}

/// The eye-rotation correction once the replacement eye's own tilt is
/// taken into account.
pub open spec fn eye_rotate_correction(eye_type: u8, correction: [i8; 5]) -> int {
    let corrected = correction[0];
    if corrected >= 0 && corrected != eye_type {
        let expression_offset = spec_eye_rotate_offset(eye_type) as int;
        let source_offset = spec_eye_rotate_offset(corrected as u8) as int;
        if corrected < 62 {
            correction[2] + expression_offset - source_offset
        } else {
            correction[2] - expression_offset + source_offset
        }
    } else {
        correction[2] as int
    }
}

/// The fields of a Mii showing the expression numbered `code`.
pub open spec fn resolved_fields(fields: Seq<u8>, code: u8) -> Seq<u8> {
    let correction = CORRECTIONS@[code as int];
    let f1 = dimensioned(fields, code);
    let f2 = if correction[1] >= 0 {
        f1.update(MOUTH_TYPE as int, correction[1] as u8)
    } else {
        f1
    };
    let rotate = eye_rotate_correction(f2[EYE_TYPE as int], correction);
    let f3 = if rotate != 0 {
        f2.update(EYE_ROTATE as int, clamped_sum(f2[EYE_ROTATE as int], rotate, 7))
    } else {
        f2
    };
    let f4 = if f3[MOUTH_TYPE as int] == 48 {
        f3.update(MOUTH_SCALE as int, 8)
    } else {
        f3
    };
    let aspect = f4[MOUTH_ASPECT as int];
    let f5 = if code == 67 {
        f4.update(
            MOUTH_ASPECT as int,
            if aspect < 3 {
                0
            } else if aspect - 3 > 6 {
                6
            } else {
                (aspect - 3) as u8
            },
        )
    } else {
        f4
    };
    let f6 = f5.update(EYEBROW_Y as int, (f5[EYEBROW_Y as int] + correction[4]) as u8);
    if correction[3] != 0 {
        f6.update(
            EYEBROW_ROTATE as int,
            clamped_sum(f6[EYEBROW_ROTATE as int], correction[3] as int, 11),
        )
    } else {
        f6
    }
}

/// A Mii adjusted for one expression, with the textures the expression shows.
#[derive(Clone, Copy, Debug, PartialEq, Eq)]
pub struct Resolved {
    pub mii: Mii,
    pub eye_right: u8,
    pub eye_left: u8,
    pub eyebrow: u8,
    pub mouth: u8,
}

/// Applies `expression` to `mii`: the adjusted fields, and the eye, eyebrow
/// and mouth textures to draw.
///
/// For every valid Mii and every expression, the selected textures exist in
/// the archive (80 eyes, 28 eyebrows, 52 mouths) and the rotations stay in
/// range.
/// `res` is `mii` with `expression` applied: its adjusted fields and the
/// eye, eyebrow and mouth textures the expression shows.
pub open spec fn resolution(mii: Mii, expression: Expression, res: Resolved) -> bool {
    &&& res.mii.fields@ == resolved_fields(mii.fields@, expression.spec_code())
    &&& res.mii.color_mode == mii.color_mode
    &&& res.eye_right == spec_eye_index(
        PARTS@[expression.spec_code() as int][0],
        mii.fields@[EYE_TYPE as int],
    )
    &&& res.eye_left == spec_eye_index(
        PARTS@[expression.spec_code() as int][1],
        mii.fields@[EYE_TYPE as int],
    )
    &&& res.mouth == spec_mouth_index(
        PARTS@[expression.spec_code() as int][2],
        mii.fields@[MOUTH_TYPE as int],
    )
    &&& res.eyebrow == (if PARTS@[expression.spec_code() as int][3] == 0 {
        mii.fields@[EYEBROW_TYPE as int]
    } else {
        PARTS@[expression.spec_code() as int][3]
    })
}

pub fn resolve(mii: Mii, expression: Expression) -> (res: Resolved)
    requires
        mii.wf(),
    ensures
        resolution(mii, expression, res),
        res.eye_right < 80 && res.eye_left < 80,
        res.eyebrow < 28,
        res.mouth < 52,
        res.mii.fields@[EYE_TYPE as int] == mii.fields@[EYE_TYPE as int],
        res.mii.fields@[EYEBROW_TYPE as int] == mii.fields@[EYEBROW_TYPE as int],
        res.mii.fields@[EYE_ROTATE as int] <= 7,
        res.mii.fields@[EYEBROW_ROTATE as int] <= 11,
{
    let own = mii;
    let mut mii = mii;
    let code = expression.code();
    let index = code as usize;
    let parts = PARTS[index];
    let correction = CORRECTIONS[index];
    let ghost limits = FieldLimits::Decoded(mii.color_mode);
    assert(field_in_range(mii.fields@, limits, EYE_TYPE as int));
    assert(field_in_range(mii.fields@, limits, MOUTH_TYPE as int));
    assert(field_in_range(mii.fields@, limits, EYEBROW_TYPE as int));
    assert(field_in_range(mii.fields@, limits, EYEBROW_Y as int));
    assert(field_in_range(mii.fields@, limits, EYE_ROTATE as int));
    assert(field_in_range(mii.fields@, limits, EYEBROW_ROTATE as int));
    assert(mii.fields@[EYE_TYPE as int] <= 59);
    assert(mii.fields@[MOUTH_TYPE as int] <= 35);
    assert(mii.fields@[EYEBROW_TYPE as int] <= 27);
    assert(3 <= mii.fields@[EYEBROW_Y as int] <= 18);
    assert(mii.fields@[EYE_ROTATE as int] <= 7);
    assert(mii.fields@[EYEBROW_ROTATE as int] <= 11);

    apply_expression_dimensions(&mut mii, expression);
    if correction[1] >= 0 {
        mii.fields[MOUTH_TYPE] = correction[1] as u8;
    }

    let mut eye_rotate = correction[2];
    let eye_type = mii.fields[EYE_TYPE];
    if correction[0] >= 0 && correction[0] as u8 != eye_type {
        let expression_offset = eye_rotate_offset(eye_type) as i8;
        let source_offset = eye_rotate_offset(correction[0] as u8) as i8;
        eye_rotate = if correction[0] < 62 {
            eye_rotate + expression_offset - source_offset
        } else {
            eye_rotate - expression_offset + source_offset
        };
    }
    if eye_rotate != 0 {
        mii.fields[EYE_ROTATE] = add_clamped(mii.fields[EYE_ROTATE], eye_rotate, 7);
    }

    if mii.fields[MOUTH_TYPE] == 48 {
        mii.fields[MOUTH_SCALE] = 8;
    }
    if code == 67 {
        let aspect = mii.fields[MOUTH_ASPECT];
        mii.fields[MOUTH_ASPECT] = if aspect < 3 {
            0
        } else if aspect - 3 > 6 {
            6
        } else {
            aspect - 3
        };
    }
    mii.fields[EYEBROW_Y] = add_signed(mii.fields[EYEBROW_Y], correction[4]);
    if correction[3] != 0 {
        mii.fields[EYEBROW_ROTATE] = add_clamped(mii.fields[EYEBROW_ROTATE], correction[3], 11);
    }

    let eyebrow = if parts[3] == 0 {
        own.fields[EYEBROW_TYPE]
    } else {
        parts[3]
    };
    let res = Resolved {
        mii,
        eye_right: eye_index(parts[0], own.fields[EYE_TYPE]),
        eye_left: eye_index(parts[1], own.fields[EYE_TYPE]),
        eyebrow,
        mouth: mouth_index(parts[2], own.fields[MOUTH_TYPE]),
    };
    assert(res.mii.fields@ =~= resolved_fields(own.fields@, code));
    res
}

/// The neutral expression keeps a valid Mii as it is and shows the Mii's
/// own eyes, eyebrows and mouth.
pub proof fn neutral_expression_keeps_the_mii(mii: Mii)
    requires
        mii.wf(),
    ensures
        resolved_fields(mii.fields@, Expression::Normal.spec_code()) == mii.fields@,
        spec_eye_index(PARTS@[0][0], mii.fields@[EYE_TYPE as int]) == mii.fields@[EYE_TYPE as int],
        spec_eye_index(PARTS@[0][1], mii.fields@[EYE_TYPE as int]) == mii.fields@[EYE_TYPE as int],
        spec_mouth_index(PARTS@[0][2], mii.fields@[MOUTH_TYPE as int])
            == mii.fields@[MOUTH_TYPE as int],
        PARTS@[0][3] == 0,
{
    assert(field_in_range(mii.fields@, FieldLimits::Decoded(mii.color_mode), MOUTH_TYPE as int));
    let fields = mii.fields@;
    assert(resolved_fields(fields, 0) =~= fields);
}


/// The eye and mouth textures of FFL's standard expressions, for every
/// valid Mii: the neutral, angry and sorrowful faces keep the Mii's own eyes;
/// smiling draws eye texture 60, surprise 61 and blinking 26 on both sides;
/// a wink closes one eye with texture 47 and keeps the Mii's own other eye;
/// the angry mouth is texture 10, the sorrowful one 12, every open mouth 36
/// and the liking mouth 19; the remaining standard faces keep the Mii's own
/// mouth.
pub proof fn standard_expressions_draw_ffl_textures(mii: Mii, expression: Expression, res: Resolved)
    requires
        mii.wf(),
        resolution(mii, expression, res),
    ensures
        ({
            let own_eye = mii.fields@[EYE_TYPE as int];
            let own_mouth = mii.fields@[MOUTH_TYPE as int];
            let e = expression;
            &&& e == Expression::Normal || e == Expression::Anger || e == Expression::Sorrow
                || e == Expression::OpenMouth || e == Expression::AngerOpenMouth || e
                == Expression::SorrowOpenMouth ==> res.eye_right == own_eye && res.eye_left == own_eye
            &&& e == Expression::Smile || e == Expression::SmileOpenMouth ==> res.eye_right == 60
                && res.eye_left == 60
            &&& e == Expression::Surprise || e == Expression::SurpriseOpenMouth ==> res.eye_right
                == 61 && res.eye_left == 61
            &&& e == Expression::Blink || e == Expression::BlinkOpenMouth ==> res.eye_right == 26
                && res.eye_left == 26
            &&& e == Expression::WinkLeft || e == Expression::WinkLeftOpenMouth || e
                == Expression::LikeWinkLeft ==> res.eye_right == 47 && res.eye_left == own_eye
            &&& e == Expression::WinkRight || e == Expression::WinkRightOpenMouth || e
                == Expression::LikeWinkRight ==> res.eye_right == own_eye && res.eye_left == 47
            &&& e == Expression::Frustrated ==> res.eye_right == 47 && res.eye_left == 47
            &&& e == Expression::Normal || e == Expression::Smile || e == Expression::Surprise || e
                == Expression::Blink || e == Expression::WinkLeft || e == Expression::WinkRight
                ==> res.mouth == own_mouth
            &&& e == Expression::Anger ==> res.mouth == 10
            &&& e == Expression::Sorrow || e == Expression::Frustrated ==> res.mouth == 12
            &&& e == Expression::OpenMouth || e == Expression::SmileOpenMouth || e
                == Expression::AngerOpenMouth || e == Expression::SorrowOpenMouth || e
                == Expression::SurpriseOpenMouth || e == Expression::BlinkOpenMouth || e
                == Expression::WinkLeftOpenMouth || e == Expression::WinkRightOpenMouth
                ==> res.mouth == 36
            &&& e == Expression::LikeWinkLeft || e == Expression::LikeWinkRight ==> res.mouth == 19
        }),
{
}


/// An expression that corrects the eye rotation for a replacement eye type
/// draws that eye texture on at least one side, and one that replaces the
/// mouth type draws that mouth texture; an expression that names no
/// replacement eye keeps the Mii's own eyes on both sides.
pub proof fn replacement_types_are_the_drawn_textures(mii: Mii, expression: Expression, res: Resolved)
    requires
        mii.wf(),
        resolution(mii, expression, res),
    ensures
        CORRECTIONS@[expression.spec_code() as int][0] >= 0 ==> res.eye_right
            == CORRECTIONS@[expression.spec_code() as int][0] || res.eye_left
            == CORRECTIONS@[expression.spec_code() as int][0],
        CORRECTIONS@[expression.spec_code() as int][0] < 0 ==> res.eye_right
            == mii.fields@[EYE_TYPE as int] && res.eye_left == mii.fields@[EYE_TYPE as int],
        CORRECTIONS@[expression.spec_code() as int][1] >= 0 ==> res.mouth
            == CORRECTIONS@[expression.spec_code() as int][1] && res.mouth
            == res.mii.fields@[MOUTH_TYPE as int],
{
    let c = expression.spec_code() as int;
    assert(0 <= c < 70) by {
        expression_numbers_round_trip(expression, 0);
    }
}

} // verus!
