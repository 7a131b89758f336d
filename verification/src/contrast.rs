//! Grey level of a colour and the foreground that contrasts with it.
//!
//! Grey is weighed in linear light: each channel is decoded from its gamma
//! encoding, the decoded intensities are averaged with the luma weights
//! 0.299, 0.587 and 0.114, and the average is encoded again. Intensities are
//! held in fixed point, as multiples of 2^-32, rounded down, so that every
//! step is exact integer arithmetic.

use vstd::prelude::*;

verus! {

/// The intensity 1.0 in fixed point.
pub const LINEAR_ONE: u64 = 0x1_0000_0000;

/// `n^5 * d^12`.
pub open spec fn fifth_by_twelfth(n: int, d: int) -> int {
    n * n * n * n * n * d * d * d * d * d * d * d * d * d * d * d * d
}

/// Whether `n` is the linear intensity of the channel value `c`, in fixed
/// point and rounded down.
///
/// With `v = c / 256`, the intensity is `v / 12.92` where `v < 0.04045`, which
/// is where `c <= 10`, and `((v + 0.055) / 1.055)^2.4` elsewhere. In whole
/// numbers `v / 12.92 = 25 c / 82688` and
/// `(v + 0.055) / 1.055 = (25 c + 352) / 6752`; the exponent 2.4 is 12/5, so
/// `n / 2^32 <= x^(12/5)` is stated as `n^5 <= (2^32)^5 x^12`.
pub open spec fn is_linear_level(c: u8, n: nat) -> bool {
    if c <= 10 {
        n == (LINEAR_ONE * 25 * c) / 82688
    } else {
        fifth_by_twelfth(n as int, 6752) <= fifth_by_twelfth(LINEAR_ONE as int, 25 * c + 352)
            < fifth_by_twelfth(n as int + 1, 6752)
    }
}

/// The linear intensity of the channel value `c`, in fixed point and rounded
/// down: the one number that [`is_linear_level`] admits for `c`.
pub open spec fn linear_level(c: u8) -> nat {
    choose|n: nat| is_linear_level(c, n)
}

/// The channel value that encodes the fixed-point intensity `y`: the largest
/// value up to `k` whose own intensity does not exceed `y`.
pub open spec fn srgb_level_up_to(y: nat, k: nat) -> nat
    decreases k,
{
    if k == 0 {
        0
    } else if k <= 255 && linear_level(k as u8) <= y {
        k
    } else {
        srgb_level_up_to(y, (k - 1) as nat)
    }
}

/// The channel value that encodes the fixed-point intensity `y`, rounded
/// down: the largest channel value whose intensity does not exceed `y`.
///
/// Encoding undoes decoding (`12.92 x` on the linear stretch,
/// `1.055 x^(1/2.4) - 0.055` above it), and both grow with their argument, so
/// the encoded value is at least `k / 256` exactly where `y` is at least the
/// intensity of `k`.
pub open spec fn srgb_level(y: nat) -> nat {
    srgb_level_up_to(y, 255)
}

/// The fixed-point intensity of a colour's grey: the channels' intensities
/// averaged with the weights 0.299, 0.587 and 0.114.
pub open spec fn luminance(color: (u8, u8, u8)) -> nat {
    (299 * linear_level(color.0) + 587 * linear_level(color.1) + 114 * linear_level(color.2))
        / 1000
}

/// The grey level of a colour.
pub open spec fn gray_level(color: (u8, u8, u8)) -> nat {
    srgb_level(luminance(color))
}

/// The foreground that is legible on the background `bg`: black on a grey
/// level above `0xA0`, white otherwise.
pub open spec fn contrast(bg: (u8, u8, u8)) -> (u8, u8, u8) {
    if gray_level(bg) > 0xA0 {
        (0u8, 0u8, 0u8)
    } else {
        (0xffu8, 0xffu8, 0xffu8)
    }
}

proof fn lemma_fifth_by_twelfth_strict(a: int, b: int, d: int)
    requires
        0 <= a < b,
        0 < d,
    ensures
        fifth_by_twelfth(a, d) < fifth_by_twelfth(b, d),
{
    let a2 = a * a;
    let b2 = b * b;
    assert(a2 < b2) by (nonlinear_arith)
        requires
            0 <= a < b,
            a2 == a * a,
            b2 == b * b,
    ;
    let a5 = a2 * a2 * a;
    let b5 = b2 * b2 * b;
    assert(0 <= a5 < b5) by (nonlinear_arith)
        requires
            0 <= a2 < b2,
            0 <= a < b,
            a5 == a2 * a2 * a,
            b5 == b2 * b2 * b,
    ;
    let d2 = d * d;
    let d4 = d2 * d2;
    let d12 = d4 * d4 * d4;
    assert(d12 > 0) by (nonlinear_arith)
        requires
            d > 0,
            d2 == d * d,
            d4 == d2 * d2,
            d12 == d4 * d4 * d4,
    ;
    assert(a5 * d12 < b5 * d12) by (nonlinear_arith)
        requires
            a5 < b5,
            d12 > 0,
    ;
    assert(fifth_by_twelfth(a, d) == a5 * d12) by (nonlinear_arith)
        requires
            a5 == (a * a) * (a * a) * a,
            d12 == ((d * d) * (d * d)) * ((d * d) * (d * d)) * ((d * d) * (d * d)),
            fifth_by_twelfth(a, d) == a * a * a * a * a * d * d * d * d * d * d * d * d * d * d
                * d * d,
    ;
    assert(fifth_by_twelfth(b, d) == b5 * d12) by (nonlinear_arith)
        requires
            b5 == (b * b) * (b * b) * b,
            d12 == ((d * d) * (d * d)) * ((d * d) * (d * d)) * ((d * d) * (d * d)),
            fifth_by_twelfth(b, d) == b * b * b * b * b * d * d * d * d * d * d * d * d * d * d
                * d * d,
    ;
}

/// At most one number is the linear intensity of a channel value.
pub proof fn lemma_linear_level_unique(c: u8, n: nat, m: nat)
    requires
        is_linear_level(c, n),
        is_linear_level(c, m),
    ensures
        n == m,
{
    if c > 10 {
        let (lo, hi) = if n < m {
            (n as int, m as int)
        } else {
            (m as int, n as int)
        };
        if lo + 1 < hi {
            lemma_fifth_by_twelfth_strict(lo + 1, hi, 6752);
        }
    }
}

/// A number that [`is_linear_level`] admits for `c` is its linear intensity.
pub proof fn lemma_linear_level_is(c: u8, n: nat)
    requires
        is_linear_level(c, n),
    ensures
        linear_level(c) == n,
{
    lemma_linear_level_unique(c, n, linear_level(c));
}

/// The linear intensity of every channel value.
pub proof fn lemma_linear_level_table()
    ensures
        linear_level(0) == 0,
        linear_level(1) == 1298546,
        linear_level(2) == 2597092,
        linear_level(3) == 3895638,
        linear_level(4) == 5194184,
        linear_level(5) == 6492730,
        linear_level(6) == 7791276,
        linear_level(7) == 9089822,
        linear_level(8) == 10388369,
        linear_level(9) == 11686915,
        linear_level(10) == 12985461,
        linear_level(11) == 14314102,
        linear_level(12) == 15722306,
        linear_level(13) == 17208175,
        linear_level(14) == 18772888,
        linear_level(15) == 20417596,
        linear_level(16) == 22143427,
        linear_level(17) == 23951486,
        linear_level(18) == 25842855,
        linear_level(19) == 27818598,
        linear_level(20) == 29879756,
        linear_level(21) == 32027352,
        linear_level(22) == 34262394,
        linear_level(23) == 36585869,
        linear_level(24) == 38998750,
        linear_level(25) == 41501994,
        linear_level(26) == 44096543,
        linear_level(27) == 46783325,
        linear_level(28) == 49563252,
        linear_level(29) == 52437225,
        linear_level(30) == 55406133,
        linear_level(31) == 58470851,
        linear_level(32) == 61632242,
        linear_level(33) == 64891159,
        linear_level(34) == 68248442,
        linear_level(35) == 71704922,
        linear_level(36) == 75261420,
        linear_level(37) == 78918745,
        linear_level(38) == 82677699,
        linear_level(39) == 86539072,
        linear_level(40) == 90503647,
        linear_level(41) == 94572196,
        linear_level(42) == 98745486,
        linear_level(43) == 103024272,
        linear_level(44) == 107409303,
        linear_level(45) == 111901319,
        linear_level(46) == 116501055,
        linear_level(47) == 121209234,
        linear_level(48) == 126026577,
        linear_level(49) == 130953793,
        linear_level(50) == 135991589,
        linear_level(51) == 141140661,
        linear_level(52) == 146401701,
        linear_level(53) == 151775394,
        linear_level(54) == 157262419,
        linear_level(55) == 162863450,
        linear_level(56) == 168579152,
        linear_level(57) == 174410186,
        linear_level(58) == 180357210,
        linear_level(59) == 186420871,
        linear_level(60) == 192601816,
        linear_level(61) == 198900683,
        linear_level(62) == 205318106,
        linear_level(63) == 211854715,
        linear_level(64) == 218511134,
        linear_level(65) == 225287983,
        linear_level(66) == 232185875,
        linear_level(67) == 239205420,
        linear_level(68) == 246347225,
        linear_level(69) == 253611890,
        linear_level(70) == 261000012,
        linear_level(71) == 268512183,
        linear_level(72) == 276148991,
        linear_level(73) == 283911020,
        linear_level(74) == 291798849,
        linear_level(75) == 299813056,
        linear_level(76) == 307954211,
        linear_level(77) == 316222883,
        linear_level(78) == 324619636,
        linear_level(79) == 333145031,
        linear_level(80) == 341799625,
        linear_level(81) == 350583971,
        linear_level(82) == 359498620,
        linear_level(83) == 368544117,
        linear_level(84) == 377721006,
        linear_level(85) == 387029827,
        linear_level(86) == 396471116,
        linear_level(87) == 406045405,
        linear_level(88) == 415753226,
        linear_level(89) == 425595105,
        linear_level(90) == 435571566,
        linear_level(91) == 445683129,
        linear_level(92) == 455930313,
        linear_level(93) == 466313631,
        linear_level(94) == 476833597,
        linear_level(95) == 487490718,
        linear_level(96) == 498285502,
        linear_level(97) == 509218451,
        linear_level(98) == 520290067,
        linear_level(99) == 531500846,
        linear_level(100) == 542851286,
        linear_level(101) == 554341878,
        linear_level(102) == 565973112,
        linear_level(103) == 577745477,
        linear_level(104) == 589659456,
        linear_level(105) == 601715534,
        linear_level(106) == 613914189,
        linear_level(107) == 626255900,
        linear_level(108) == 638741142,
        linear_level(109) == 651370388,
        linear_level(110) == 664144109,
        linear_level(111) == 677062772,
        linear_level(112) == 690126845,
        linear_level(113) == 703336791,
        linear_level(114) == 716693072,
        linear_level(115) == 730196147,
        linear_level(116) == 743846474,
        linear_level(117) == 757644508,
        linear_level(118) == 771590702,
        linear_level(119) == 785685508,
        linear_level(120) == 799929373,
        linear_level(121) == 814322746,
        linear_level(122) == 828866071,
        linear_level(123) == 843559792,
        linear_level(124) == 858404349,
        linear_level(125) == 873400182,
        linear_level(126) == 888547728,
        linear_level(127) == 903847422,
        linear_level(128) == 919299698,
        linear_level(129) == 934904988,
        linear_level(130) == 950663721,
        linear_level(131) == 966576326,
        linear_level(132) == 982643228,
        linear_level(133) == 998864853,
        linear_level(134) == 1015241624,
        linear_level(135) == 1031773960,
        linear_level(136) == 1048462282,
        linear_level(137) == 1065307008,
        linear_level(138) == 1082308553,
        linear_level(139) == 1099467332,
        linear_level(140) == 1116783757,
        linear_level(141) == 1134258240,
        linear_level(142) == 1151891190,
        linear_level(143) == 1169683015,
        linear_level(144) == 1187634121,
        linear_level(145) == 1205744914,
        linear_level(146) == 1224015797,
        linear_level(147) == 1242447171,
        linear_level(148) == 1261039436,
        linear_level(149) == 1279792993,
        linear_level(150) == 1298708237,
        linear_level(151) == 1317785564,
        linear_level(152) == 1337025370,
        linear_level(153) == 1356428047,
        linear_level(154) == 1375993986,
        linear_level(155) == 1395723578,
        linear_level(156) == 1415617212,
        linear_level(157) == 1435675275,
        linear_level(158) == 1455898153,
        linear_level(159) == 1476286230,
        linear_level(160) == 1496839890,
        linear_level(161) == 1517559516,
        linear_level(162) == 1538445487,
        linear_level(163) == 1559498183,
        linear_level(164) == 1580717983,
        linear_level(165) == 1602105262,
        linear_level(166) == 1623660398,
        linear_level(167) == 1645383763,
        linear_level(168) == 1667275731,
        linear_level(169) == 1689336674,
        linear_level(170) == 1711566962,
        linear_level(171) == 1733966965,
        linear_level(172) == 1756537051,
        linear_level(173) == 1779277587,
        linear_level(174) == 1802188939,
        linear_level(175) == 1825271472,
        linear_level(176) == 1848525548,
        linear_level(177) == 1871951530,
        linear_level(178) == 1895549780,
        linear_level(179) == 1919320658,
        linear_level(180) == 1943264521,
        linear_level(181) == 1967381729,
        linear_level(182) == 1991672638,
        linear_level(183) == 2016137604,
        linear_level(184) == 2040776981,
        linear_level(185) == 2065591122,
        linear_level(186) == 2090580380,
        linear_level(187) == 2115745106,
        linear_level(188) == 2141085651,
        linear_level(189) == 2166602364,
        linear_level(190) == 2192295592,
        linear_level(191) == 2218165684,
        linear_level(192) == 2244212985,
        linear_level(193) == 2270437841,
        linear_level(194) == 2296840595,
        linear_level(195) == 2323421590,
        linear_level(196) == 2350181170,
        linear_level(197) == 2377119674,
        linear_level(198) == 2404237444,
        linear_level(199) == 2431534818,
        linear_level(200) == 2459012135,
        linear_level(201) == 2486669731,
        linear_level(202) == 2514507945,
        linear_level(203) == 2542527110,
        linear_level(204) == 2570727561,
        linear_level(205) == 2599109632,
        linear_level(206) == 2627673656,
        linear_level(207) == 2656419964,
        linear_level(208) == 2685348887,
        linear_level(209) == 2714460756,
        linear_level(210) == 2743755899,
        linear_level(211) == 2773234644,
        linear_level(212) == 2802897319,
        linear_level(213) == 2832744250,
        linear_level(214) == 2862775762,
        linear_level(215) == 2892992182,
        linear_level(216) == 2923393831,
        linear_level(217) == 2953981034,
        linear_level(218) == 2984754112,
        linear_level(219) == 3015713387,
        linear_level(220) == 3046859180,
        linear_level(221) == 3078191809,
        linear_level(222) == 3109711594,
        linear_level(223) == 3141418854,
        linear_level(224) == 3173313904,
        linear_level(225) == 3205397062,
        linear_level(226) == 3237668643,
        linear_level(227) == 3270128962,
        linear_level(228) == 3302778334,
        linear_level(229) == 3335617070,
        linear_level(230) == 3368645485,
        linear_level(231) == 3401863890,
        linear_level(232) == 3435272595,
        linear_level(233) == 3468871911,
        linear_level(234) == 3502662148,
        linear_level(235) == 3536643613,
        linear_level(236) == 3570816615,
        linear_level(237) == 3605181462,
        linear_level(238) == 3639738460,
        linear_level(239) == 3674487914,
        linear_level(240) == 3709430129,
        linear_level(241) == 3744565410,
        linear_level(242) == 3779894061,
        linear_level(243) == 3815416384,
        linear_level(244) == 3851132681,
        linear_level(245) == 3887043255,
        linear_level(246) == 3923148405,
        linear_level(247) == 3959448431,
        linear_level(248) == 3995943634,
        linear_level(249) == 4032634311,
        linear_level(250) == 4069520762,
        linear_level(251) == 4106603282,
        linear_level(252) == 4143882169,
        linear_level(253) == 4181357719,
        linear_level(254) == 4219030227,
        linear_level(255) == 4256899988,
{
    assert(linear_level(0) == 0) by {
        assert(is_linear_level(0, 0)) by (nonlinear_arith);
        lemma_linear_level_is(0, 0);
    }
    assert(linear_level(1) == 1298546) by {
        assert(is_linear_level(1, 1298546)) by (nonlinear_arith);
        lemma_linear_level_is(1, 1298546);
    }
    assert(linear_level(2) == 2597092) by {
        assert(is_linear_level(2, 2597092)) by (nonlinear_arith);
        lemma_linear_level_is(2, 2597092);
    }
    assert(linear_level(3) == 3895638) by {
        assert(is_linear_level(3, 3895638)) by (nonlinear_arith);
        lemma_linear_level_is(3, 3895638);
    }
    assert(linear_level(4) == 5194184) by {
        assert(is_linear_level(4, 5194184)) by (nonlinear_arith);
        lemma_linear_level_is(4, 5194184);
    }
    assert(linear_level(5) == 6492730) by {
        assert(is_linear_level(5, 6492730)) by (nonlinear_arith);
        lemma_linear_level_is(5, 6492730);
    }
    assert(linear_level(6) == 7791276) by {
        assert(is_linear_level(6, 7791276)) by (nonlinear_arith);
        lemma_linear_level_is(6, 7791276);
    }
    assert(linear_level(7) == 9089822) by {
        assert(is_linear_level(7, 9089822)) by (nonlinear_arith);
        lemma_linear_level_is(7, 9089822);
    }
    assert(linear_level(8) == 10388369) by {
        assert(is_linear_level(8, 10388369)) by (nonlinear_arith);
        lemma_linear_level_is(8, 10388369);
    }
    assert(linear_level(9) == 11686915) by {
        assert(is_linear_level(9, 11686915)) by (nonlinear_arith);
        lemma_linear_level_is(9, 11686915);
    }
    assert(linear_level(10) == 12985461) by {
        assert(is_linear_level(10, 12985461)) by (nonlinear_arith);
        lemma_linear_level_is(10, 12985461);
    }
    assert(linear_level(11) == 14314102) by {
        assert(is_linear_level(11, 14314102)) by (nonlinear_arith);
        lemma_linear_level_is(11, 14314102);
    }
    assert(linear_level(12) == 15722306) by {
        assert(is_linear_level(12, 15722306)) by (nonlinear_arith);
        lemma_linear_level_is(12, 15722306);
    }
    assert(linear_level(13) == 17208175) by {
        assert(is_linear_level(13, 17208175)) by (nonlinear_arith);
        lemma_linear_level_is(13, 17208175);
    }
    assert(linear_level(14) == 18772888) by {
        assert(is_linear_level(14, 18772888)) by (nonlinear_arith);
        lemma_linear_level_is(14, 18772888);
    }
    assert(linear_level(15) == 20417596) by {
        assert(is_linear_level(15, 20417596)) by (nonlinear_arith);
        lemma_linear_level_is(15, 20417596);
    }
    assert(linear_level(16) == 22143427) by {
        assert(is_linear_level(16, 22143427)) by (nonlinear_arith);
        lemma_linear_level_is(16, 22143427);
    }
    assert(linear_level(17) == 23951486) by {
        assert(is_linear_level(17, 23951486)) by (nonlinear_arith);
        lemma_linear_level_is(17, 23951486);
    }
    assert(linear_level(18) == 25842855) by {
        assert(is_linear_level(18, 25842855)) by (nonlinear_arith);
        lemma_linear_level_is(18, 25842855);
    }
    assert(linear_level(19) == 27818598) by {
        assert(is_linear_level(19, 27818598)) by (nonlinear_arith);
        lemma_linear_level_is(19, 27818598);
    }
    assert(linear_level(20) == 29879756) by {
        assert(is_linear_level(20, 29879756)) by (nonlinear_arith);
        lemma_linear_level_is(20, 29879756);
    }
    assert(linear_level(21) == 32027352) by {
        assert(is_linear_level(21, 32027352)) by (nonlinear_arith);
        lemma_linear_level_is(21, 32027352);
    }
    assert(linear_level(22) == 34262394) by {
        assert(is_linear_level(22, 34262394)) by (nonlinear_arith);
        lemma_linear_level_is(22, 34262394);
    }
    assert(linear_level(23) == 36585869) by {
        assert(is_linear_level(23, 36585869)) by (nonlinear_arith);
        lemma_linear_level_is(23, 36585869);
    }
    assert(linear_level(24) == 38998750) by {
        assert(is_linear_level(24, 38998750)) by (nonlinear_arith);
        lemma_linear_level_is(24, 38998750);
    }
    assert(linear_level(25) == 41501994) by {
        assert(is_linear_level(25, 41501994)) by (nonlinear_arith);
        lemma_linear_level_is(25, 41501994);
    }
    assert(linear_level(26) == 44096543) by {
        assert(is_linear_level(26, 44096543)) by (nonlinear_arith);
        lemma_linear_level_is(26, 44096543);
    }
    assert(linear_level(27) == 46783325) by {
        assert(is_linear_level(27, 46783325)) by (nonlinear_arith);
        lemma_linear_level_is(27, 46783325);
    }
    assert(linear_level(28) == 49563252) by {
        assert(is_linear_level(28, 49563252)) by (nonlinear_arith);
        lemma_linear_level_is(28, 49563252);
    }
    assert(linear_level(29) == 52437225) by {
        assert(is_linear_level(29, 52437225)) by (nonlinear_arith);
        lemma_linear_level_is(29, 52437225);
    }
    assert(linear_level(30) == 55406133) by {
        assert(is_linear_level(30, 55406133)) by (nonlinear_arith);
        lemma_linear_level_is(30, 55406133);
    }
    assert(linear_level(31) == 58470851) by {
        assert(is_linear_level(31, 58470851)) by (nonlinear_arith);
        lemma_linear_level_is(31, 58470851);
    }
    assert(linear_level(32) == 61632242) by {
        assert(is_linear_level(32, 61632242)) by (nonlinear_arith);
        lemma_linear_level_is(32, 61632242);
    }
    assert(linear_level(33) == 64891159) by {
        assert(is_linear_level(33, 64891159)) by (nonlinear_arith);
        lemma_linear_level_is(33, 64891159);
    }
    assert(linear_level(34) == 68248442) by {
        assert(is_linear_level(34, 68248442)) by (nonlinear_arith);
        lemma_linear_level_is(34, 68248442);
    }
    assert(linear_level(35) == 71704922) by {
        assert(is_linear_level(35, 71704922)) by (nonlinear_arith);
        lemma_linear_level_is(35, 71704922);
    }
    assert(linear_level(36) == 75261420) by {
        assert(is_linear_level(36, 75261420)) by (nonlinear_arith);
        lemma_linear_level_is(36, 75261420);
    }
    assert(linear_level(37) == 78918745) by {
        assert(is_linear_level(37, 78918745)) by (nonlinear_arith);
        lemma_linear_level_is(37, 78918745);
    }
    assert(linear_level(38) == 82677699) by {
        assert(is_linear_level(38, 82677699)) by (nonlinear_arith);
        lemma_linear_level_is(38, 82677699);
    }
    assert(linear_level(39) == 86539072) by {
        assert(is_linear_level(39, 86539072)) by (nonlinear_arith);
        lemma_linear_level_is(39, 86539072);
    }
    assert(linear_level(40) == 90503647) by {
        assert(is_linear_level(40, 90503647)) by (nonlinear_arith);
        lemma_linear_level_is(40, 90503647);
    }
    assert(linear_level(41) == 94572196) by {
        assert(is_linear_level(41, 94572196)) by (nonlinear_arith);
        lemma_linear_level_is(41, 94572196);
    }
    assert(linear_level(42) == 98745486) by {
        assert(is_linear_level(42, 98745486)) by (nonlinear_arith);
        lemma_linear_level_is(42, 98745486);
    }
    assert(linear_level(43) == 103024272) by {
        assert(is_linear_level(43, 103024272)) by (nonlinear_arith);
        lemma_linear_level_is(43, 103024272);
    }
    assert(linear_level(44) == 107409303) by {
        assert(is_linear_level(44, 107409303)) by (nonlinear_arith);
        lemma_linear_level_is(44, 107409303);
    }
    assert(linear_level(45) == 111901319) by {
        assert(is_linear_level(45, 111901319)) by (nonlinear_arith);
        lemma_linear_level_is(45, 111901319);
    }
    assert(linear_level(46) == 116501055) by {
        assert(is_linear_level(46, 116501055)) by (nonlinear_arith);
        lemma_linear_level_is(46, 116501055);
    }
    assert(linear_level(47) == 121209234) by {
        assert(is_linear_level(47, 121209234)) by (nonlinear_arith);
        lemma_linear_level_is(47, 121209234);
    }
    assert(linear_level(48) == 126026577) by {
        assert(is_linear_level(48, 126026577)) by (nonlinear_arith);
        lemma_linear_level_is(48, 126026577);
    }
    assert(linear_level(49) == 130953793) by {
        assert(is_linear_level(49, 130953793)) by (nonlinear_arith);
        lemma_linear_level_is(49, 130953793);
    }
    assert(linear_level(50) == 135991589) by {
        assert(is_linear_level(50, 135991589)) by (nonlinear_arith);
        lemma_linear_level_is(50, 135991589);
    }
    assert(linear_level(51) == 141140661) by {
        assert(is_linear_level(51, 141140661)) by (nonlinear_arith);
        lemma_linear_level_is(51, 141140661);
    }
    assert(linear_level(52) == 146401701) by {
        assert(is_linear_level(52, 146401701)) by (nonlinear_arith);
        lemma_linear_level_is(52, 146401701);
    }
    assert(linear_level(53) == 151775394) by {
        assert(is_linear_level(53, 151775394)) by (nonlinear_arith);
        lemma_linear_level_is(53, 151775394);
    }
    assert(linear_level(54) == 157262419) by {
        assert(is_linear_level(54, 157262419)) by (nonlinear_arith);
        lemma_linear_level_is(54, 157262419);
    }
    assert(linear_level(55) == 162863450) by {
        assert(is_linear_level(55, 162863450)) by (nonlinear_arith);
        lemma_linear_level_is(55, 162863450);
    }
    assert(linear_level(56) == 168579152) by {
        assert(is_linear_level(56, 168579152)) by (nonlinear_arith);
        lemma_linear_level_is(56, 168579152);
    }
    assert(linear_level(57) == 174410186) by {
        assert(is_linear_level(57, 174410186)) by (nonlinear_arith);
        lemma_linear_level_is(57, 174410186);
    }
    assert(linear_level(58) == 180357210) by {
        assert(is_linear_level(58, 180357210)) by (nonlinear_arith);
        lemma_linear_level_is(58, 180357210);
    }
    assert(linear_level(59) == 186420871) by {
        assert(is_linear_level(59, 186420871)) by (nonlinear_arith);
        lemma_linear_level_is(59, 186420871);
    }
    assert(linear_level(60) == 192601816) by {
        assert(is_linear_level(60, 192601816)) by (nonlinear_arith);
        lemma_linear_level_is(60, 192601816);
    }
    assert(linear_level(61) == 198900683) by {
        assert(is_linear_level(61, 198900683)) by (nonlinear_arith);
        lemma_linear_level_is(61, 198900683);
    }
    assert(linear_level(62) == 205318106) by {
        assert(is_linear_level(62, 205318106)) by (nonlinear_arith);
        lemma_linear_level_is(62, 205318106);
    }
    assert(linear_level(63) == 211854715) by {
        assert(is_linear_level(63, 211854715)) by (nonlinear_arith);
        lemma_linear_level_is(63, 211854715);
    }
    assert(linear_level(64) == 218511134) by {
        assert(is_linear_level(64, 218511134)) by (nonlinear_arith);
        lemma_linear_level_is(64, 218511134);
    }
    assert(linear_level(65) == 225287983) by {
        assert(is_linear_level(65, 225287983)) by (nonlinear_arith);
        lemma_linear_level_is(65, 225287983);
    }
    assert(linear_level(66) == 232185875) by {
        assert(is_linear_level(66, 232185875)) by (nonlinear_arith);
        lemma_linear_level_is(66, 232185875);
    }
    assert(linear_level(67) == 239205420) by {
        assert(is_linear_level(67, 239205420)) by (nonlinear_arith);
        lemma_linear_level_is(67, 239205420);
    }
    assert(linear_level(68) == 246347225) by {
        assert(is_linear_level(68, 246347225)) by (nonlinear_arith);
        lemma_linear_level_is(68, 246347225);
    }
    assert(linear_level(69) == 253611890) by {
        assert(is_linear_level(69, 253611890)) by (nonlinear_arith);
        lemma_linear_level_is(69, 253611890);
    }
    assert(linear_level(70) == 261000012) by {
        assert(is_linear_level(70, 261000012)) by (nonlinear_arith);
        lemma_linear_level_is(70, 261000012);
    }
    assert(linear_level(71) == 268512183) by {
        assert(is_linear_level(71, 268512183)) by (nonlinear_arith);
        lemma_linear_level_is(71, 268512183);
    }
    assert(linear_level(72) == 276148991) by {
        assert(is_linear_level(72, 276148991)) by (nonlinear_arith);
        lemma_linear_level_is(72, 276148991);
    }
    assert(linear_level(73) == 283911020) by {
        assert(is_linear_level(73, 283911020)) by (nonlinear_arith);
        lemma_linear_level_is(73, 283911020);
    }
    assert(linear_level(74) == 291798849) by {
        assert(is_linear_level(74, 291798849)) by (nonlinear_arith);
        lemma_linear_level_is(74, 291798849);
    }
    assert(linear_level(75) == 299813056) by {
        assert(is_linear_level(75, 299813056)) by (nonlinear_arith);
        lemma_linear_level_is(75, 299813056);
    }
    assert(linear_level(76) == 307954211) by {
        assert(is_linear_level(76, 307954211)) by (nonlinear_arith);
        lemma_linear_level_is(76, 307954211);
    }
    assert(linear_level(77) == 316222883) by {
        assert(is_linear_level(77, 316222883)) by (nonlinear_arith);
        lemma_linear_level_is(77, 316222883);
    }
    assert(linear_level(78) == 324619636) by {
        assert(is_linear_level(78, 324619636)) by (nonlinear_arith);
        lemma_linear_level_is(78, 324619636);
    }
    assert(linear_level(79) == 333145031) by {
        assert(is_linear_level(79, 333145031)) by (nonlinear_arith);
        lemma_linear_level_is(79, 333145031);
    }
    assert(linear_level(80) == 341799625) by {
        assert(is_linear_level(80, 341799625)) by (nonlinear_arith);
        lemma_linear_level_is(80, 341799625);
    }
    assert(linear_level(81) == 350583971) by {
        assert(is_linear_level(81, 350583971)) by (nonlinear_arith);
        lemma_linear_level_is(81, 350583971);
    }
    assert(linear_level(82) == 359498620) by {
        assert(is_linear_level(82, 359498620)) by (nonlinear_arith);
        lemma_linear_level_is(82, 359498620);
    }
    assert(linear_level(83) == 368544117) by {
        assert(is_linear_level(83, 368544117)) by (nonlinear_arith);
        lemma_linear_level_is(83, 368544117);
    }
    assert(linear_level(84) == 377721006) by {
        assert(is_linear_level(84, 377721006)) by (nonlinear_arith);
        lemma_linear_level_is(84, 377721006);
    }
    assert(linear_level(85) == 387029827) by {
        assert(is_linear_level(85, 387029827)) by (nonlinear_arith);
        lemma_linear_level_is(85, 387029827);
    }
    assert(linear_level(86) == 396471116) by {
        assert(is_linear_level(86, 396471116)) by (nonlinear_arith);
        lemma_linear_level_is(86, 396471116);
    }
    assert(linear_level(87) == 406045405) by {
        assert(is_linear_level(87, 406045405)) by (nonlinear_arith);
        lemma_linear_level_is(87, 406045405);
    }
    assert(linear_level(88) == 415753226) by {
        assert(is_linear_level(88, 415753226)) by (nonlinear_arith);
        lemma_linear_level_is(88, 415753226);
    }
    assert(linear_level(89) == 425595105) by {
        assert(is_linear_level(89, 425595105)) by (nonlinear_arith);
        lemma_linear_level_is(89, 425595105);
    }
    assert(linear_level(90) == 435571566) by {
        assert(is_linear_level(90, 435571566)) by (nonlinear_arith);
        lemma_linear_level_is(90, 435571566);
    }
    assert(linear_level(91) == 445683129) by {
        assert(is_linear_level(91, 445683129)) by (nonlinear_arith);
        lemma_linear_level_is(91, 445683129);
    }
    assert(linear_level(92) == 455930313) by {
        assert(is_linear_level(92, 455930313)) by (nonlinear_arith);
        lemma_linear_level_is(92, 455930313);
    }
    assert(linear_level(93) == 466313631) by {
        assert(is_linear_level(93, 466313631)) by (nonlinear_arith);
        lemma_linear_level_is(93, 466313631);
    }
    assert(linear_level(94) == 476833597) by {
        assert(is_linear_level(94, 476833597)) by (nonlinear_arith);
        lemma_linear_level_is(94, 476833597);
    }
    assert(linear_level(95) == 487490718) by {
        assert(is_linear_level(95, 487490718)) by (nonlinear_arith);
        lemma_linear_level_is(95, 487490718);
    }
    assert(linear_level(96) == 498285502) by {
        assert(is_linear_level(96, 498285502)) by (nonlinear_arith);
        lemma_linear_level_is(96, 498285502);
    }
    assert(linear_level(97) == 509218451) by {
        assert(is_linear_level(97, 509218451)) by (nonlinear_arith);
        lemma_linear_level_is(97, 509218451);
    }
    assert(linear_level(98) == 520290067) by {
        assert(is_linear_level(98, 520290067)) by (nonlinear_arith);
        lemma_linear_level_is(98, 520290067);
    }
    assert(linear_level(99) == 531500846) by {
        assert(is_linear_level(99, 531500846)) by (nonlinear_arith);
        lemma_linear_level_is(99, 531500846);
    }
    assert(linear_level(100) == 542851286) by {
        assert(is_linear_level(100, 542851286)) by (nonlinear_arith);
        lemma_linear_level_is(100, 542851286);
    }
    assert(linear_level(101) == 554341878) by {
        assert(is_linear_level(101, 554341878)) by (nonlinear_arith);
        lemma_linear_level_is(101, 554341878);
    }
    assert(linear_level(102) == 565973112) by {
        assert(is_linear_level(102, 565973112)) by (nonlinear_arith);
        lemma_linear_level_is(102, 565973112);
    }
    assert(linear_level(103) == 577745477) by {
        assert(is_linear_level(103, 577745477)) by (nonlinear_arith);
        lemma_linear_level_is(103, 577745477);
    }
    assert(linear_level(104) == 589659456) by {
        assert(is_linear_level(104, 589659456)) by (nonlinear_arith);
        lemma_linear_level_is(104, 589659456);
    }
    assert(linear_level(105) == 601715534) by {
        assert(is_linear_level(105, 601715534)) by (nonlinear_arith);
        lemma_linear_level_is(105, 601715534);
    }
    assert(linear_level(106) == 613914189) by {
        assert(is_linear_level(106, 613914189)) by (nonlinear_arith);
        lemma_linear_level_is(106, 613914189);
    }
    assert(linear_level(107) == 626255900) by {
        assert(is_linear_level(107, 626255900)) by (nonlinear_arith);
        lemma_linear_level_is(107, 626255900);
    }
    assert(linear_level(108) == 638741142) by {
        assert(is_linear_level(108, 638741142)) by (nonlinear_arith);
        lemma_linear_level_is(108, 638741142);
    }
    assert(linear_level(109) == 651370388) by {
        assert(is_linear_level(109, 651370388)) by (nonlinear_arith);
        lemma_linear_level_is(109, 651370388);
    }
    assert(linear_level(110) == 664144109) by {
        assert(is_linear_level(110, 664144109)) by (nonlinear_arith);
        lemma_linear_level_is(110, 664144109);
    }
    assert(linear_level(111) == 677062772) by {
        assert(is_linear_level(111, 677062772)) by (nonlinear_arith);
        lemma_linear_level_is(111, 677062772);
    }
    assert(linear_level(112) == 690126845) by {
        assert(is_linear_level(112, 690126845)) by (nonlinear_arith);
        lemma_linear_level_is(112, 690126845);
    }
    assert(linear_level(113) == 703336791) by {
        assert(is_linear_level(113, 703336791)) by (nonlinear_arith);
        lemma_linear_level_is(113, 703336791);
    }
    assert(linear_level(114) == 716693072) by {
        assert(is_linear_level(114, 716693072)) by (nonlinear_arith);
        lemma_linear_level_is(114, 716693072);
    }
    assert(linear_level(115) == 730196147) by {
        assert(is_linear_level(115, 730196147)) by (nonlinear_arith);
        lemma_linear_level_is(115, 730196147);
    }
    assert(linear_level(116) == 743846474) by {
        assert(is_linear_level(116, 743846474)) by (nonlinear_arith);
        lemma_linear_level_is(116, 743846474);
    }
    assert(linear_level(117) == 757644508) by {
        assert(is_linear_level(117, 757644508)) by (nonlinear_arith);
        lemma_linear_level_is(117, 757644508);
    }
    assert(linear_level(118) == 771590702) by {
        assert(is_linear_level(118, 771590702)) by (nonlinear_arith);
        lemma_linear_level_is(118, 771590702);
    }
    assert(linear_level(119) == 785685508) by {
        assert(is_linear_level(119, 785685508)) by (nonlinear_arith);
        lemma_linear_level_is(119, 785685508);
    }
    assert(linear_level(120) == 799929373) by {
        assert(is_linear_level(120, 799929373)) by (nonlinear_arith);
        lemma_linear_level_is(120, 799929373);
    }
    assert(linear_level(121) == 814322746) by {
        assert(is_linear_level(121, 814322746)) by (nonlinear_arith);
        lemma_linear_level_is(121, 814322746);
    }
    assert(linear_level(122) == 828866071) by {
        assert(is_linear_level(122, 828866071)) by (nonlinear_arith);
        lemma_linear_level_is(122, 828866071);
    }
    assert(linear_level(123) == 843559792) by {
        assert(is_linear_level(123, 843559792)) by (nonlinear_arith);
        lemma_linear_level_is(123, 843559792);
    }
    assert(linear_level(124) == 858404349) by {
        assert(is_linear_level(124, 858404349)) by (nonlinear_arith);
        lemma_linear_level_is(124, 858404349);
    }
    assert(linear_level(125) == 873400182) by {
        assert(is_linear_level(125, 873400182)) by (nonlinear_arith);
        lemma_linear_level_is(125, 873400182);
    }
    assert(linear_level(126) == 888547728) by {
        assert(is_linear_level(126, 888547728)) by (nonlinear_arith);
        lemma_linear_level_is(126, 888547728);
    }
    assert(linear_level(127) == 903847422) by {
        assert(is_linear_level(127, 903847422)) by (nonlinear_arith);
        lemma_linear_level_is(127, 903847422);
    }
    assert(linear_level(128) == 919299698) by {
        assert(is_linear_level(128, 919299698)) by (nonlinear_arith);
        lemma_linear_level_is(128, 919299698);
    }
    assert(linear_level(129) == 934904988) by {
        assert(is_linear_level(129, 934904988)) by (nonlinear_arith);
        lemma_linear_level_is(129, 934904988);
    }
    assert(linear_level(130) == 950663721) by {
        assert(is_linear_level(130, 950663721)) by (nonlinear_arith);
        lemma_linear_level_is(130, 950663721);
    }
    assert(linear_level(131) == 966576326) by {
        assert(is_linear_level(131, 966576326)) by (nonlinear_arith);
        lemma_linear_level_is(131, 966576326);
    }
    assert(linear_level(132) == 982643228) by {
        assert(is_linear_level(132, 982643228)) by (nonlinear_arith);
        lemma_linear_level_is(132, 982643228);
    }
    assert(linear_level(133) == 998864853) by {
        assert(is_linear_level(133, 998864853)) by (nonlinear_arith);
        lemma_linear_level_is(133, 998864853);
    }
    assert(linear_level(134) == 1015241624) by {
        assert(is_linear_level(134, 1015241624)) by (nonlinear_arith);
        lemma_linear_level_is(134, 1015241624);
    }
    assert(linear_level(135) == 1031773960) by {
        assert(is_linear_level(135, 1031773960)) by (nonlinear_arith);
        lemma_linear_level_is(135, 1031773960);
    }
    assert(linear_level(136) == 1048462282) by {
        assert(is_linear_level(136, 1048462282)) by (nonlinear_arith);
        lemma_linear_level_is(136, 1048462282);
    }
    assert(linear_level(137) == 1065307008) by {
        assert(is_linear_level(137, 1065307008)) by (nonlinear_arith);
        lemma_linear_level_is(137, 1065307008);
    }
    assert(linear_level(138) == 1082308553) by {
        assert(is_linear_level(138, 1082308553)) by (nonlinear_arith);
        lemma_linear_level_is(138, 1082308553);
    }
    assert(linear_level(139) == 1099467332) by {
        assert(is_linear_level(139, 1099467332)) by (nonlinear_arith);
        lemma_linear_level_is(139, 1099467332);
    }
    assert(linear_level(140) == 1116783757) by {
        assert(is_linear_level(140, 1116783757)) by (nonlinear_arith);
        lemma_linear_level_is(140, 1116783757);
    }
    assert(linear_level(141) == 1134258240) by {
        assert(is_linear_level(141, 1134258240)) by (nonlinear_arith);
        lemma_linear_level_is(141, 1134258240);
    }
    assert(linear_level(142) == 1151891190) by {
        assert(is_linear_level(142, 1151891190)) by (nonlinear_arith);
        lemma_linear_level_is(142, 1151891190);
    }
    assert(linear_level(143) == 1169683015) by {
        assert(is_linear_level(143, 1169683015)) by (nonlinear_arith);
        lemma_linear_level_is(143, 1169683015);
    }
    assert(linear_level(144) == 1187634121) by {
        assert(is_linear_level(144, 1187634121)) by (nonlinear_arith);
        lemma_linear_level_is(144, 1187634121);
    }
    assert(linear_level(145) == 1205744914) by {
        assert(is_linear_level(145, 1205744914)) by (nonlinear_arith);
        lemma_linear_level_is(145, 1205744914);
    }
    assert(linear_level(146) == 1224015797) by {
        assert(is_linear_level(146, 1224015797)) by (nonlinear_arith);
        lemma_linear_level_is(146, 1224015797);
    }
    assert(linear_level(147) == 1242447171) by {
        assert(is_linear_level(147, 1242447171)) by (nonlinear_arith);
        lemma_linear_level_is(147, 1242447171);
    }
    assert(linear_level(148) == 1261039436) by {
        assert(is_linear_level(148, 1261039436)) by (nonlinear_arith);
        lemma_linear_level_is(148, 1261039436);
    }
    assert(linear_level(149) == 1279792993) by {
        assert(is_linear_level(149, 1279792993)) by (nonlinear_arith);
        lemma_linear_level_is(149, 1279792993);
    }
    assert(linear_level(150) == 1298708237) by {
        assert(is_linear_level(150, 1298708237)) by (nonlinear_arith);
        lemma_linear_level_is(150, 1298708237);
    }
    assert(linear_level(151) == 1317785564) by {
        assert(is_linear_level(151, 1317785564)) by (nonlinear_arith);
        lemma_linear_level_is(151, 1317785564);
    }
    assert(linear_level(152) == 1337025370) by {
        assert(is_linear_level(152, 1337025370)) by (nonlinear_arith);
        lemma_linear_level_is(152, 1337025370);
    }
    assert(linear_level(153) == 1356428047) by {
        assert(is_linear_level(153, 1356428047)) by (nonlinear_arith);
        lemma_linear_level_is(153, 1356428047);
    }
    assert(linear_level(154) == 1375993986) by {
        assert(is_linear_level(154, 1375993986)) by (nonlinear_arith);
        lemma_linear_level_is(154, 1375993986);
    }
    assert(linear_level(155) == 1395723578) by {
        assert(is_linear_level(155, 1395723578)) by (nonlinear_arith);
        lemma_linear_level_is(155, 1395723578);
    }
    assert(linear_level(156) == 1415617212) by {
        assert(is_linear_level(156, 1415617212)) by (nonlinear_arith);
        lemma_linear_level_is(156, 1415617212);
    }
    assert(linear_level(157) == 1435675275) by {
        assert(is_linear_level(157, 1435675275)) by (nonlinear_arith);
        lemma_linear_level_is(157, 1435675275);
    }
    assert(linear_level(158) == 1455898153) by {
        assert(is_linear_level(158, 1455898153)) by (nonlinear_arith);
        lemma_linear_level_is(158, 1455898153);
    }
    assert(linear_level(159) == 1476286230) by {
        assert(is_linear_level(159, 1476286230)) by (nonlinear_arith);
        lemma_linear_level_is(159, 1476286230);
    }
    assert(linear_level(160) == 1496839890) by {
        assert(is_linear_level(160, 1496839890)) by (nonlinear_arith);
        lemma_linear_level_is(160, 1496839890);
    }
    assert(linear_level(161) == 1517559516) by {
        assert(is_linear_level(161, 1517559516)) by (nonlinear_arith);
        lemma_linear_level_is(161, 1517559516);
    }
    assert(linear_level(162) == 1538445487) by {
        assert(is_linear_level(162, 1538445487)) by (nonlinear_arith);
        lemma_linear_level_is(162, 1538445487);
    }
    assert(linear_level(163) == 1559498183) by {
        assert(is_linear_level(163, 1559498183)) by (nonlinear_arith);
        lemma_linear_level_is(163, 1559498183);
    }
    assert(linear_level(164) == 1580717983) by {
        assert(is_linear_level(164, 1580717983)) by (nonlinear_arith);
        lemma_linear_level_is(164, 1580717983);
    }
    assert(linear_level(165) == 1602105262) by {
        assert(is_linear_level(165, 1602105262)) by (nonlinear_arith);
        lemma_linear_level_is(165, 1602105262);
    }
    assert(linear_level(166) == 1623660398) by {
        assert(is_linear_level(166, 1623660398)) by (nonlinear_arith);
        lemma_linear_level_is(166, 1623660398);
    }
    assert(linear_level(167) == 1645383763) by {
        assert(is_linear_level(167, 1645383763)) by (nonlinear_arith);
        lemma_linear_level_is(167, 1645383763);
    }
    assert(linear_level(168) == 1667275731) by {
        assert(is_linear_level(168, 1667275731)) by (nonlinear_arith);
        lemma_linear_level_is(168, 1667275731);
    }
    assert(linear_level(169) == 1689336674) by {
        assert(is_linear_level(169, 1689336674)) by (nonlinear_arith);
        lemma_linear_level_is(169, 1689336674);
    }
    assert(linear_level(170) == 1711566962) by {
        assert(is_linear_level(170, 1711566962)) by (nonlinear_arith);
        lemma_linear_level_is(170, 1711566962);
    }
    assert(linear_level(171) == 1733966965) by {
        assert(is_linear_level(171, 1733966965)) by (nonlinear_arith);
        lemma_linear_level_is(171, 1733966965);
    }
    assert(linear_level(172) == 1756537051) by {
        assert(is_linear_level(172, 1756537051)) by (nonlinear_arith);
        lemma_linear_level_is(172, 1756537051);
    }
    assert(linear_level(173) == 1779277587) by {
        assert(is_linear_level(173, 1779277587)) by (nonlinear_arith);
        lemma_linear_level_is(173, 1779277587);
    }
    assert(linear_level(174) == 1802188939) by {
        assert(is_linear_level(174, 1802188939)) by (nonlinear_arith);
        lemma_linear_level_is(174, 1802188939);
    }
    assert(linear_level(175) == 1825271472) by {
        assert(is_linear_level(175, 1825271472)) by (nonlinear_arith);
        lemma_linear_level_is(175, 1825271472);
    }
    assert(linear_level(176) == 1848525548) by {
        assert(is_linear_level(176, 1848525548)) by (nonlinear_arith);
        lemma_linear_level_is(176, 1848525548);
    }
    assert(linear_level(177) == 1871951530) by {
        assert(is_linear_level(177, 1871951530)) by (nonlinear_arith);
        lemma_linear_level_is(177, 1871951530);
    }
    assert(linear_level(178) == 1895549780) by {
        assert(is_linear_level(178, 1895549780)) by (nonlinear_arith);
        lemma_linear_level_is(178, 1895549780);
    }
    assert(linear_level(179) == 1919320658) by {
        assert(is_linear_level(179, 1919320658)) by (nonlinear_arith);
        lemma_linear_level_is(179, 1919320658);
    }
    assert(linear_level(180) == 1943264521) by {
        assert(is_linear_level(180, 1943264521)) by (nonlinear_arith);
        lemma_linear_level_is(180, 1943264521);
    }
    assert(linear_level(181) == 1967381729) by {
        assert(is_linear_level(181, 1967381729)) by (nonlinear_arith);
        lemma_linear_level_is(181, 1967381729);
    }
    assert(linear_level(182) == 1991672638) by {
        assert(is_linear_level(182, 1991672638)) by (nonlinear_arith);
        lemma_linear_level_is(182, 1991672638);
    }
    assert(linear_level(183) == 2016137604) by {
        assert(is_linear_level(183, 2016137604)) by (nonlinear_arith);
        lemma_linear_level_is(183, 2016137604);
    }
    assert(linear_level(184) == 2040776981) by {
        assert(is_linear_level(184, 2040776981)) by (nonlinear_arith);
        lemma_linear_level_is(184, 2040776981);
    }
    assert(linear_level(185) == 2065591122) by {
        assert(is_linear_level(185, 2065591122)) by (nonlinear_arith);
        lemma_linear_level_is(185, 2065591122);
    }
    assert(linear_level(186) == 2090580380) by {
        assert(is_linear_level(186, 2090580380)) by (nonlinear_arith);
        lemma_linear_level_is(186, 2090580380);
    }
    assert(linear_level(187) == 2115745106) by {
        assert(is_linear_level(187, 2115745106)) by (nonlinear_arith);
        lemma_linear_level_is(187, 2115745106);
    }
    assert(linear_level(188) == 2141085651) by {
        assert(is_linear_level(188, 2141085651)) by (nonlinear_arith);
        lemma_linear_level_is(188, 2141085651);
    }
    assert(linear_level(189) == 2166602364) by {
        assert(is_linear_level(189, 2166602364)) by (nonlinear_arith);
        lemma_linear_level_is(189, 2166602364);
    }
    assert(linear_level(190) == 2192295592) by {
        assert(is_linear_level(190, 2192295592)) by (nonlinear_arith);
        lemma_linear_level_is(190, 2192295592);
    }
    assert(linear_level(191) == 2218165684) by {
        assert(is_linear_level(191, 2218165684)) by (nonlinear_arith);
        lemma_linear_level_is(191, 2218165684);
    }
    assert(linear_level(192) == 2244212985) by {
        assert(is_linear_level(192, 2244212985)) by (nonlinear_arith);
        lemma_linear_level_is(192, 2244212985);
    }
    assert(linear_level(193) == 2270437841) by {
        assert(is_linear_level(193, 2270437841)) by (nonlinear_arith);
        lemma_linear_level_is(193, 2270437841);
    }
    assert(linear_level(194) == 2296840595) by {
        assert(is_linear_level(194, 2296840595)) by (nonlinear_arith);
        lemma_linear_level_is(194, 2296840595);
    }
    assert(linear_level(195) == 2323421590) by {
        assert(is_linear_level(195, 2323421590)) by (nonlinear_arith);
        lemma_linear_level_is(195, 2323421590);
    }
    assert(linear_level(196) == 2350181170) by {
        assert(is_linear_level(196, 2350181170)) by (nonlinear_arith);
        lemma_linear_level_is(196, 2350181170);
    }
    assert(linear_level(197) == 2377119674) by {
        assert(is_linear_level(197, 2377119674)) by (nonlinear_arith);
        lemma_linear_level_is(197, 2377119674);
    }
    assert(linear_level(198) == 2404237444) by {
        assert(is_linear_level(198, 2404237444)) by (nonlinear_arith);
        lemma_linear_level_is(198, 2404237444);
    }
    assert(linear_level(199) == 2431534818) by {
        assert(is_linear_level(199, 2431534818)) by (nonlinear_arith);
        lemma_linear_level_is(199, 2431534818);
    }
    assert(linear_level(200) == 2459012135) by {
        assert(is_linear_level(200, 2459012135)) by (nonlinear_arith);
        lemma_linear_level_is(200, 2459012135);
    }
    assert(linear_level(201) == 2486669731) by {
        assert(is_linear_level(201, 2486669731)) by (nonlinear_arith);
        lemma_linear_level_is(201, 2486669731);
    }
    assert(linear_level(202) == 2514507945) by {
        assert(is_linear_level(202, 2514507945)) by (nonlinear_arith);
        lemma_linear_level_is(202, 2514507945);
    }
    assert(linear_level(203) == 2542527110) by {
        assert(is_linear_level(203, 2542527110)) by (nonlinear_arith);
        lemma_linear_level_is(203, 2542527110);
    }
    assert(linear_level(204) == 2570727561) by {
        assert(is_linear_level(204, 2570727561)) by (nonlinear_arith);
        lemma_linear_level_is(204, 2570727561);
    }
    assert(linear_level(205) == 2599109632) by {
        assert(is_linear_level(205, 2599109632)) by (nonlinear_arith);
        lemma_linear_level_is(205, 2599109632);
    }
    assert(linear_level(206) == 2627673656) by {
        assert(is_linear_level(206, 2627673656)) by (nonlinear_arith);
        lemma_linear_level_is(206, 2627673656);
    }
    assert(linear_level(207) == 2656419964) by {
        assert(is_linear_level(207, 2656419964)) by (nonlinear_arith);
        lemma_linear_level_is(207, 2656419964);
    }
    assert(linear_level(208) == 2685348887) by {
        assert(is_linear_level(208, 2685348887)) by (nonlinear_arith);
        lemma_linear_level_is(208, 2685348887);
    }
    assert(linear_level(209) == 2714460756) by {
        assert(is_linear_level(209, 2714460756)) by (nonlinear_arith);
        lemma_linear_level_is(209, 2714460756);
    }
    assert(linear_level(210) == 2743755899) by {
        assert(is_linear_level(210, 2743755899)) by (nonlinear_arith);
        lemma_linear_level_is(210, 2743755899);
    }
    assert(linear_level(211) == 2773234644) by {
        assert(is_linear_level(211, 2773234644)) by (nonlinear_arith);
        lemma_linear_level_is(211, 2773234644);
    }
    assert(linear_level(212) == 2802897319) by {
        assert(is_linear_level(212, 2802897319)) by (nonlinear_arith);
        lemma_linear_level_is(212, 2802897319);
    }
    assert(linear_level(213) == 2832744250) by {
        assert(is_linear_level(213, 2832744250)) by (nonlinear_arith);
        lemma_linear_level_is(213, 2832744250);
    }
    assert(linear_level(214) == 2862775762) by {
        assert(is_linear_level(214, 2862775762)) by (nonlinear_arith);
        lemma_linear_level_is(214, 2862775762);
    }
    assert(linear_level(215) == 2892992182) by {
        assert(is_linear_level(215, 2892992182)) by (nonlinear_arith);
        lemma_linear_level_is(215, 2892992182);
    }
    assert(linear_level(216) == 2923393831) by {
        assert(is_linear_level(216, 2923393831)) by (nonlinear_arith);
        lemma_linear_level_is(216, 2923393831);
    }
    assert(linear_level(217) == 2953981034) by {
        assert(is_linear_level(217, 2953981034)) by (nonlinear_arith);
        lemma_linear_level_is(217, 2953981034);
    }
    assert(linear_level(218) == 2984754112) by {
        assert(is_linear_level(218, 2984754112)) by (nonlinear_arith);
        lemma_linear_level_is(218, 2984754112);
    }
    assert(linear_level(219) == 3015713387) by {
        assert(is_linear_level(219, 3015713387)) by (nonlinear_arith);
        lemma_linear_level_is(219, 3015713387);
    }
    assert(linear_level(220) == 3046859180) by {
        assert(is_linear_level(220, 3046859180)) by (nonlinear_arith);
        lemma_linear_level_is(220, 3046859180);
    }
    assert(linear_level(221) == 3078191809) by {
        assert(is_linear_level(221, 3078191809)) by (nonlinear_arith);
        lemma_linear_level_is(221, 3078191809);
    }
    assert(linear_level(222) == 3109711594) by {
        assert(is_linear_level(222, 3109711594)) by (nonlinear_arith);
        lemma_linear_level_is(222, 3109711594);
    }
    assert(linear_level(223) == 3141418854) by {
        assert(is_linear_level(223, 3141418854)) by (nonlinear_arith);
        lemma_linear_level_is(223, 3141418854);
    }
    assert(linear_level(224) == 3173313904) by {
        assert(is_linear_level(224, 3173313904)) by (nonlinear_arith);
        lemma_linear_level_is(224, 3173313904);
    }
    assert(linear_level(225) == 3205397062) by {
        assert(is_linear_level(225, 3205397062)) by (nonlinear_arith);
        lemma_linear_level_is(225, 3205397062);
    }
    assert(linear_level(226) == 3237668643) by {
        assert(is_linear_level(226, 3237668643)) by (nonlinear_arith);
        lemma_linear_level_is(226, 3237668643);
    }
    assert(linear_level(227) == 3270128962) by {
        assert(is_linear_level(227, 3270128962)) by (nonlinear_arith);
        lemma_linear_level_is(227, 3270128962);
    }
    assert(linear_level(228) == 3302778334) by {
        assert(is_linear_level(228, 3302778334)) by (nonlinear_arith);
        lemma_linear_level_is(228, 3302778334);
    }
    assert(linear_level(229) == 3335617070) by {
        assert(is_linear_level(229, 3335617070)) by (nonlinear_arith);
        lemma_linear_level_is(229, 3335617070);
    }
    assert(linear_level(230) == 3368645485) by {
        assert(is_linear_level(230, 3368645485)) by (nonlinear_arith);
        lemma_linear_level_is(230, 3368645485);
    }
    assert(linear_level(231) == 3401863890) by {
        assert(is_linear_level(231, 3401863890)) by (nonlinear_arith);
        lemma_linear_level_is(231, 3401863890);
    }
    assert(linear_level(232) == 3435272595) by {
        assert(is_linear_level(232, 3435272595)) by (nonlinear_arith);
        lemma_linear_level_is(232, 3435272595);
    }
    assert(linear_level(233) == 3468871911) by {
        assert(is_linear_level(233, 3468871911)) by (nonlinear_arith);
        lemma_linear_level_is(233, 3468871911);
    }
    assert(linear_level(234) == 3502662148) by {
        assert(is_linear_level(234, 3502662148)) by (nonlinear_arith);
        lemma_linear_level_is(234, 3502662148);
    }
    assert(linear_level(235) == 3536643613) by {
        assert(is_linear_level(235, 3536643613)) by (nonlinear_arith);
        lemma_linear_level_is(235, 3536643613);
    }
    assert(linear_level(236) == 3570816615) by {
        assert(is_linear_level(236, 3570816615)) by (nonlinear_arith);
        lemma_linear_level_is(236, 3570816615);
    }
    assert(linear_level(237) == 3605181462) by {
        assert(is_linear_level(237, 3605181462)) by (nonlinear_arith);
        lemma_linear_level_is(237, 3605181462);
    }
    assert(linear_level(238) == 3639738460) by {
        assert(is_linear_level(238, 3639738460)) by (nonlinear_arith);
        lemma_linear_level_is(238, 3639738460);
    }
    assert(linear_level(239) == 3674487914) by {
        assert(is_linear_level(239, 3674487914)) by (nonlinear_arith);
        lemma_linear_level_is(239, 3674487914);
    }
    assert(linear_level(240) == 3709430129) by {
        assert(is_linear_level(240, 3709430129)) by (nonlinear_arith);
        lemma_linear_level_is(240, 3709430129);
    }
    assert(linear_level(241) == 3744565410) by {
        assert(is_linear_level(241, 3744565410)) by (nonlinear_arith);
        lemma_linear_level_is(241, 3744565410);
    }
    assert(linear_level(242) == 3779894061) by {
        assert(is_linear_level(242, 3779894061)) by (nonlinear_arith);
        lemma_linear_level_is(242, 3779894061);
    }
    assert(linear_level(243) == 3815416384) by {
        assert(is_linear_level(243, 3815416384)) by (nonlinear_arith);
        lemma_linear_level_is(243, 3815416384);
    }
    assert(linear_level(244) == 3851132681) by {
        assert(is_linear_level(244, 3851132681)) by (nonlinear_arith);
        lemma_linear_level_is(244, 3851132681);
    }
    assert(linear_level(245) == 3887043255) by {
        assert(is_linear_level(245, 3887043255)) by (nonlinear_arith);
        lemma_linear_level_is(245, 3887043255);
    }
    assert(linear_level(246) == 3923148405) by {
        assert(is_linear_level(246, 3923148405)) by (nonlinear_arith);
        lemma_linear_level_is(246, 3923148405);
    }
    assert(linear_level(247) == 3959448431) by {
        assert(is_linear_level(247, 3959448431)) by (nonlinear_arith);
        lemma_linear_level_is(247, 3959448431);
    }
    assert(linear_level(248) == 3995943634) by {
        assert(is_linear_level(248, 3995943634)) by (nonlinear_arith);
        lemma_linear_level_is(248, 3995943634);
    }
    assert(linear_level(249) == 4032634311) by {
        assert(is_linear_level(249, 4032634311)) by (nonlinear_arith);
        lemma_linear_level_is(249, 4032634311);
    }
    assert(linear_level(250) == 4069520762) by {
        assert(is_linear_level(250, 4069520762)) by (nonlinear_arith);
        lemma_linear_level_is(250, 4069520762);
    }
    assert(linear_level(251) == 4106603282) by {
        assert(is_linear_level(251, 4106603282)) by (nonlinear_arith);
        lemma_linear_level_is(251, 4106603282);
    }
    assert(linear_level(252) == 4143882169) by {
        assert(is_linear_level(252, 4143882169)) by (nonlinear_arith);
        lemma_linear_level_is(252, 4143882169);
    }
    assert(linear_level(253) == 4181357719) by {
        assert(is_linear_level(253, 4181357719)) by (nonlinear_arith);
        lemma_linear_level_is(253, 4181357719);
    }
    assert(linear_level(254) == 4219030227) by {
        assert(is_linear_level(254, 4219030227)) by (nonlinear_arith);
        lemma_linear_level_is(254, 4219030227);
    }
    assert(linear_level(255) == 4256899988) by {
        assert(is_linear_level(255, 4256899988)) by (nonlinear_arith);
        lemma_linear_level_is(255, 4256899988);
    }
}

/// The linear intensity of a channel value on the linear stretch.
pub proof fn lemma_linear_level_low(c: u8)
    requires
        c <= 10,
    ensures
        linear_level(c) == (LINEAR_ONE * 25 * c) / 82688,
{
    lemma_linear_level_is(c, ((LINEAR_ONE * 25 * c) / 82688) as nat);
}

/// A brighter channel value has the greater linear intensity, from one value
/// to the next.
pub proof fn lemma_linear_level_steps_up(c: u8)
    requires
        c < 255,
    ensures
        linear_level(c) < linear_level((c + 1) as u8),
{
    lemma_linear_level_table();
    if c == 0 {
        assert(linear_level(0) < linear_level(1));
    }
    if c == 1 {
        assert(linear_level(1) < linear_level(2));
    }
    if c == 2 {
        assert(linear_level(2) < linear_level(3));
    }
    if c == 3 {
        assert(linear_level(3) < linear_level(4));
    }
    if c == 4 {
        assert(linear_level(4) < linear_level(5));
    }
    if c == 5 {
        assert(linear_level(5) < linear_level(6));
    }
    if c == 6 {
        assert(linear_level(6) < linear_level(7));
    }
    if c == 7 {
        assert(linear_level(7) < linear_level(8));
    }
    if c == 8 {
        assert(linear_level(8) < linear_level(9));
    }
    if c == 9 {
        assert(linear_level(9) < linear_level(10));
    }
    if c == 10 {
        assert(linear_level(10) < linear_level(11));
    }
    if c == 11 {
        assert(linear_level(11) < linear_level(12));
    }
    if c == 12 {
        assert(linear_level(12) < linear_level(13));
    }
    if c == 13 {
        assert(linear_level(13) < linear_level(14));
    }
    if c == 14 {
        assert(linear_level(14) < linear_level(15));
    }
    if c == 15 {
        assert(linear_level(15) < linear_level(16));
    }
    if c == 16 {
        assert(linear_level(16) < linear_level(17));
    }
    if c == 17 {
        assert(linear_level(17) < linear_level(18));
    }
    if c == 18 {
        assert(linear_level(18) < linear_level(19));
    }
    if c == 19 {
        assert(linear_level(19) < linear_level(20));
    }
    if c == 20 {
        assert(linear_level(20) < linear_level(21));
    }
    if c == 21 {
        assert(linear_level(21) < linear_level(22));
    }
    if c == 22 {
        assert(linear_level(22) < linear_level(23));
    }
    if c == 23 {
        assert(linear_level(23) < linear_level(24));
    }
    if c == 24 {
        assert(linear_level(24) < linear_level(25));
    }
    if c == 25 {
        assert(linear_level(25) < linear_level(26));
    }
    if c == 26 {
        assert(linear_level(26) < linear_level(27));
    }
    if c == 27 {
        assert(linear_level(27) < linear_level(28));
    }
    if c == 28 {
        assert(linear_level(28) < linear_level(29));
    }
    if c == 29 {
        assert(linear_level(29) < linear_level(30));
    }
    if c == 30 {
        assert(linear_level(30) < linear_level(31));
    }
    if c == 31 {
        assert(linear_level(31) < linear_level(32));
    }
    if c == 32 {
        assert(linear_level(32) < linear_level(33));
    }
    if c == 33 {
        assert(linear_level(33) < linear_level(34));
    }
    if c == 34 {
        assert(linear_level(34) < linear_level(35));
    }
    if c == 35 {
        assert(linear_level(35) < linear_level(36));
    }
    if c == 36 {
        assert(linear_level(36) < linear_level(37));
    }
    if c == 37 {
        assert(linear_level(37) < linear_level(38));
    }
    if c == 38 {
        assert(linear_level(38) < linear_level(39));
    }
    if c == 39 {
        assert(linear_level(39) < linear_level(40));
    }
    if c == 40 {
        assert(linear_level(40) < linear_level(41));
    }
    if c == 41 {
        assert(linear_level(41) < linear_level(42));
    }
    if c == 42 {
        assert(linear_level(42) < linear_level(43));
    }
    if c == 43 {
        assert(linear_level(43) < linear_level(44));
    }
    if c == 44 {
        assert(linear_level(44) < linear_level(45));
    }
    if c == 45 {
        assert(linear_level(45) < linear_level(46));
    }
    if c == 46 {
        assert(linear_level(46) < linear_level(47));
    }
    if c == 47 {
        assert(linear_level(47) < linear_level(48));
    }
    if c == 48 {
        assert(linear_level(48) < linear_level(49));
    }
    if c == 49 {
        assert(linear_level(49) < linear_level(50));
    }
    if c == 50 {
        assert(linear_level(50) < linear_level(51));
    }
    if c == 51 {
        assert(linear_level(51) < linear_level(52));
    }
    if c == 52 {
        assert(linear_level(52) < linear_level(53));
    }
    if c == 53 {
        assert(linear_level(53) < linear_level(54));
    }
    if c == 54 {
        assert(linear_level(54) < linear_level(55));
    }
    if c == 55 {
        assert(linear_level(55) < linear_level(56));
    }
    if c == 56 {
        assert(linear_level(56) < linear_level(57));
    }
    if c == 57 {
        assert(linear_level(57) < linear_level(58));
    }
    if c == 58 {
        assert(linear_level(58) < linear_level(59));
    }
    if c == 59 {
        assert(linear_level(59) < linear_level(60));
    }
    if c == 60 {
        assert(linear_level(60) < linear_level(61));
    }
    if c == 61 {
        assert(linear_level(61) < linear_level(62));
    }
    if c == 62 {
        assert(linear_level(62) < linear_level(63));
    }
    if c == 63 {
        assert(linear_level(63) < linear_level(64));
    }
    if c == 64 {
        assert(linear_level(64) < linear_level(65));
    }
    if c == 65 {
        assert(linear_level(65) < linear_level(66));
    }
    if c == 66 {
        assert(linear_level(66) < linear_level(67));
    }
    if c == 67 {
        assert(linear_level(67) < linear_level(68));
    }
    if c == 68 {
        assert(linear_level(68) < linear_level(69));
    }
    if c == 69 {
        assert(linear_level(69) < linear_level(70));
    }
    if c == 70 {
        assert(linear_level(70) < linear_level(71));
    }
    if c == 71 {
        assert(linear_level(71) < linear_level(72));
    }
    if c == 72 {
        assert(linear_level(72) < linear_level(73));
    }
    if c == 73 {
        assert(linear_level(73) < linear_level(74));
    }
    if c == 74 {
        assert(linear_level(74) < linear_level(75));
    }
    if c == 75 {
        assert(linear_level(75) < linear_level(76));
    }
    if c == 76 {
        assert(linear_level(76) < linear_level(77));
    }
    if c == 77 {
        assert(linear_level(77) < linear_level(78));
    }
    if c == 78 {
        assert(linear_level(78) < linear_level(79));
    }
    if c == 79 {
        assert(linear_level(79) < linear_level(80));
    }
    if c == 80 {
        assert(linear_level(80) < linear_level(81));
    }
    if c == 81 {
        assert(linear_level(81) < linear_level(82));
    }
    if c == 82 {
        assert(linear_level(82) < linear_level(83));
    }
    if c == 83 {
        assert(linear_level(83) < linear_level(84));
    }
    if c == 84 {
        assert(linear_level(84) < linear_level(85));
    }
    if c == 85 {
        assert(linear_level(85) < linear_level(86));
    }
    if c == 86 {
        assert(linear_level(86) < linear_level(87));
    }
    if c == 87 {
        assert(linear_level(87) < linear_level(88));
    }
    if c == 88 {
        assert(linear_level(88) < linear_level(89));
    }
    if c == 89 {
        assert(linear_level(89) < linear_level(90));
    }
    if c == 90 {
        assert(linear_level(90) < linear_level(91));
    }
    if c == 91 {
        assert(linear_level(91) < linear_level(92));
    }
    if c == 92 {
        assert(linear_level(92) < linear_level(93));
    }
    if c == 93 {
        assert(linear_level(93) < linear_level(94));
    }
    if c == 94 {
        assert(linear_level(94) < linear_level(95));
    }
    if c == 95 {
        assert(linear_level(95) < linear_level(96));
    }
    if c == 96 {
        assert(linear_level(96) < linear_level(97));
    }
    if c == 97 {
        assert(linear_level(97) < linear_level(98));
    }
    if c == 98 {
        assert(linear_level(98) < linear_level(99));
    }
    if c == 99 {
        assert(linear_level(99) < linear_level(100));
    }
    if c == 100 {
        assert(linear_level(100) < linear_level(101));
    }
    if c == 101 {
        assert(linear_level(101) < linear_level(102));
    }
    if c == 102 {
        assert(linear_level(102) < linear_level(103));
    }
    if c == 103 {
        assert(linear_level(103) < linear_level(104));
    }
    if c == 104 {
        assert(linear_level(104) < linear_level(105));
    }
    if c == 105 {
        assert(linear_level(105) < linear_level(106));
    }
    if c == 106 {
        assert(linear_level(106) < linear_level(107));
    }
    if c == 107 {
        assert(linear_level(107) < linear_level(108));
    }
    if c == 108 {
        assert(linear_level(108) < linear_level(109));
    }
    if c == 109 {
        assert(linear_level(109) < linear_level(110));
    }
    if c == 110 {
        assert(linear_level(110) < linear_level(111));
    }
    if c == 111 {
        assert(linear_level(111) < linear_level(112));
    }
    if c == 112 {
        assert(linear_level(112) < linear_level(113));
    }
    if c == 113 {
        assert(linear_level(113) < linear_level(114));
    }
    if c == 114 {
        assert(linear_level(114) < linear_level(115));
    }
    if c == 115 {
        assert(linear_level(115) < linear_level(116));
    }
    if c == 116 {
        assert(linear_level(116) < linear_level(117));
    }
    if c == 117 {
        assert(linear_level(117) < linear_level(118));
    }
    if c == 118 {
        assert(linear_level(118) < linear_level(119));
    }
    if c == 119 {
        assert(linear_level(119) < linear_level(120));
    }
    if c == 120 {
        assert(linear_level(120) < linear_level(121));
    }
    if c == 121 {
        assert(linear_level(121) < linear_level(122));
    }
    if c == 122 {
        assert(linear_level(122) < linear_level(123));
    }
    if c == 123 {
        assert(linear_level(123) < linear_level(124));
    }
    if c == 124 {
        assert(linear_level(124) < linear_level(125));
    }
    if c == 125 {
        assert(linear_level(125) < linear_level(126));
    }
    if c == 126 {
        assert(linear_level(126) < linear_level(127));
    }
    if c == 127 {
        assert(linear_level(127) < linear_level(128));
    }
    if c == 128 {
        assert(linear_level(128) < linear_level(129));
    }
    if c == 129 {
        assert(linear_level(129) < linear_level(130));
    }
    if c == 130 {
        assert(linear_level(130) < linear_level(131));
    }
    if c == 131 {
        assert(linear_level(131) < linear_level(132));
    }
    if c == 132 {
        assert(linear_level(132) < linear_level(133));
    }
    if c == 133 {
        assert(linear_level(133) < linear_level(134));
    }
    if c == 134 {
        assert(linear_level(134) < linear_level(135));
    }
    if c == 135 {
        assert(linear_level(135) < linear_level(136));
    }
    if c == 136 {
        assert(linear_level(136) < linear_level(137));
    }
    if c == 137 {
        assert(linear_level(137) < linear_level(138));
    }
    if c == 138 {
        assert(linear_level(138) < linear_level(139));
    }
    if c == 139 {
        assert(linear_level(139) < linear_level(140));
    }
    if c == 140 {
        assert(linear_level(140) < linear_level(141));
    }
    if c == 141 {
        assert(linear_level(141) < linear_level(142));
    }
    if c == 142 {
        assert(linear_level(142) < linear_level(143));
    }
    if c == 143 {
        assert(linear_level(143) < linear_level(144));
    }
    if c == 144 {
        assert(linear_level(144) < linear_level(145));
    }
    if c == 145 {
        assert(linear_level(145) < linear_level(146));
    }
    if c == 146 {
        assert(linear_level(146) < linear_level(147));
    }
    if c == 147 {
        assert(linear_level(147) < linear_level(148));
    }
    if c == 148 {
        assert(linear_level(148) < linear_level(149));
    }
    if c == 149 {
        assert(linear_level(149) < linear_level(150));
    }
    if c == 150 {
        assert(linear_level(150) < linear_level(151));
    }
    if c == 151 {
        assert(linear_level(151) < linear_level(152));
    }
    if c == 152 {
        assert(linear_level(152) < linear_level(153));
    }
    if c == 153 {
        assert(linear_level(153) < linear_level(154));
    }
    if c == 154 {
        assert(linear_level(154) < linear_level(155));
    }
    if c == 155 {
        assert(linear_level(155) < linear_level(156));
    }
    if c == 156 {
        assert(linear_level(156) < linear_level(157));
    }
    if c == 157 {
        assert(linear_level(157) < linear_level(158));
    }
    if c == 158 {
        assert(linear_level(158) < linear_level(159));
    }
    if c == 159 {
        assert(linear_level(159) < linear_level(160));
    }
    if c == 160 {
        assert(linear_level(160) < linear_level(161));
    }
    if c == 161 {
        assert(linear_level(161) < linear_level(162));
    }
    if c == 162 {
        assert(linear_level(162) < linear_level(163));
    }
    if c == 163 {
        assert(linear_level(163) < linear_level(164));
    }
    if c == 164 {
        assert(linear_level(164) < linear_level(165));
    }
    if c == 165 {
        assert(linear_level(165) < linear_level(166));
    }
    if c == 166 {
        assert(linear_level(166) < linear_level(167));
    }
    if c == 167 {
        assert(linear_level(167) < linear_level(168));
    }
    if c == 168 {
        assert(linear_level(168) < linear_level(169));
    }
    if c == 169 {
        assert(linear_level(169) < linear_level(170));
    }
    if c == 170 {
        assert(linear_level(170) < linear_level(171));
    }
    if c == 171 {
        assert(linear_level(171) < linear_level(172));
    }
    if c == 172 {
        assert(linear_level(172) < linear_level(173));
    }
    if c == 173 {
        assert(linear_level(173) < linear_level(174));
    }
    if c == 174 {
        assert(linear_level(174) < linear_level(175));
    }
    if c == 175 {
        assert(linear_level(175) < linear_level(176));
    }
    if c == 176 {
        assert(linear_level(176) < linear_level(177));
    }
    if c == 177 {
        assert(linear_level(177) < linear_level(178));
    }
    if c == 178 {
        assert(linear_level(178) < linear_level(179));
    }
    if c == 179 {
        assert(linear_level(179) < linear_level(180));
    }
    if c == 180 {
        assert(linear_level(180) < linear_level(181));
    }
    if c == 181 {
        assert(linear_level(181) < linear_level(182));
    }
    if c == 182 {
        assert(linear_level(182) < linear_level(183));
    }
    if c == 183 {
        assert(linear_level(183) < linear_level(184));
    }
    if c == 184 {
        assert(linear_level(184) < linear_level(185));
    }
    if c == 185 {
        assert(linear_level(185) < linear_level(186));
    }
    if c == 186 {
        assert(linear_level(186) < linear_level(187));
    }
    if c == 187 {
        assert(linear_level(187) < linear_level(188));
    }
    if c == 188 {
        assert(linear_level(188) < linear_level(189));
    }
    if c == 189 {
        assert(linear_level(189) < linear_level(190));
    }
    if c == 190 {
        assert(linear_level(190) < linear_level(191));
    }
    if c == 191 {
        assert(linear_level(191) < linear_level(192));
    }
    if c == 192 {
        assert(linear_level(192) < linear_level(193));
    }
    if c == 193 {
        assert(linear_level(193) < linear_level(194));
    }
    if c == 194 {
        assert(linear_level(194) < linear_level(195));
    }
    if c == 195 {
        assert(linear_level(195) < linear_level(196));
    }
    if c == 196 {
        assert(linear_level(196) < linear_level(197));
    }
    if c == 197 {
        assert(linear_level(197) < linear_level(198));
    }
    if c == 198 {
        assert(linear_level(198) < linear_level(199));
    }
    if c == 199 {
        assert(linear_level(199) < linear_level(200));
    }
    if c == 200 {
        assert(linear_level(200) < linear_level(201));
    }
    if c == 201 {
        assert(linear_level(201) < linear_level(202));
    }
    if c == 202 {
        assert(linear_level(202) < linear_level(203));
    }
    if c == 203 {
        assert(linear_level(203) < linear_level(204));
    }
    if c == 204 {
        assert(linear_level(204) < linear_level(205));
    }
    if c == 205 {
        assert(linear_level(205) < linear_level(206));
    }
    if c == 206 {
        assert(linear_level(206) < linear_level(207));
    }
    if c == 207 {
        assert(linear_level(207) < linear_level(208));
    }
    if c == 208 {
        assert(linear_level(208) < linear_level(209));
    }
    if c == 209 {
        assert(linear_level(209) < linear_level(210));
    }
    if c == 210 {
        assert(linear_level(210) < linear_level(211));
    }
    if c == 211 {
        assert(linear_level(211) < linear_level(212));
    }
    if c == 212 {
        assert(linear_level(212) < linear_level(213));
    }
    if c == 213 {
        assert(linear_level(213) < linear_level(214));
    }
    if c == 214 {
        assert(linear_level(214) < linear_level(215));
    }
    if c == 215 {
        assert(linear_level(215) < linear_level(216));
    }
    if c == 216 {
        assert(linear_level(216) < linear_level(217));
    }
    if c == 217 {
        assert(linear_level(217) < linear_level(218));
    }
    if c == 218 {
        assert(linear_level(218) < linear_level(219));
    }
    if c == 219 {
        assert(linear_level(219) < linear_level(220));
    }
    if c == 220 {
        assert(linear_level(220) < linear_level(221));
    }
    if c == 221 {
        assert(linear_level(221) < linear_level(222));
    }
    if c == 222 {
        assert(linear_level(222) < linear_level(223));
    }
    if c == 223 {
        assert(linear_level(223) < linear_level(224));
    }
    if c == 224 {
        assert(linear_level(224) < linear_level(225));
    }
    if c == 225 {
        assert(linear_level(225) < linear_level(226));
    }
    if c == 226 {
        assert(linear_level(226) < linear_level(227));
    }
    if c == 227 {
        assert(linear_level(227) < linear_level(228));
    }
    if c == 228 {
        assert(linear_level(228) < linear_level(229));
    }
    if c == 229 {
        assert(linear_level(229) < linear_level(230));
    }
    if c == 230 {
        assert(linear_level(230) < linear_level(231));
    }
    if c == 231 {
        assert(linear_level(231) < linear_level(232));
    }
    if c == 232 {
        assert(linear_level(232) < linear_level(233));
    }
    if c == 233 {
        assert(linear_level(233) < linear_level(234));
    }
    if c == 234 {
        assert(linear_level(234) < linear_level(235));
    }
    if c == 235 {
        assert(linear_level(235) < linear_level(236));
    }
    if c == 236 {
        assert(linear_level(236) < linear_level(237));
    }
    if c == 237 {
        assert(linear_level(237) < linear_level(238));
    }
    if c == 238 {
        assert(linear_level(238) < linear_level(239));
    }
    if c == 239 {
        assert(linear_level(239) < linear_level(240));
    }
    if c == 240 {
        assert(linear_level(240) < linear_level(241));
    }
    if c == 241 {
        assert(linear_level(241) < linear_level(242));
    }
    if c == 242 {
        assert(linear_level(242) < linear_level(243));
    }
    if c == 243 {
        assert(linear_level(243) < linear_level(244));
    }
    if c == 244 {
        assert(linear_level(244) < linear_level(245));
    }
    if c == 245 {
        assert(linear_level(245) < linear_level(246));
    }
    if c == 246 {
        assert(linear_level(246) < linear_level(247));
    }
    if c == 247 {
        assert(linear_level(247) < linear_level(248));
    }
    if c == 248 {
        assert(linear_level(248) < linear_level(249));
    }
    if c == 249 {
        assert(linear_level(249) < linear_level(250));
    }
    if c == 250 {
        assert(linear_level(250) < linear_level(251));
    }
    if c == 251 {
        assert(linear_level(251) < linear_level(252));
    }
    if c == 252 {
        assert(linear_level(252) < linear_level(253));
    }
    if c == 253 {
        assert(linear_level(253) < linear_level(254));
    }
    if c == 254 {
        assert(linear_level(254) < linear_level(255));
    }
}

/// A brighter channel value has the greater linear intensity.
pub proof fn lemma_linear_level_increases(a: u8, b: u8)
    requires
        a < b,
    ensures
        linear_level(a) < linear_level(b),
    decreases b - a,
{
    lemma_linear_level_steps_up((b - 1) as u8);
    if a < b - 1 {
        lemma_linear_level_increases(a, (b - 1) as u8);
    }
}

/// Decodes a gamma-encoded channel value to its linear intensity, in fixed
/// point: `LINEAR_ONE` stands for 1.0.
pub fn srgb_to_linear(c: u8) -> (level: u64)
    ensures
        level == linear_level(c),
        level < LINEAR_ONE,
{
    proof {
        lemma_linear_level_table();
        if c <= 10 {
            lemma_linear_level_low(c);
        }
    }
    match c {
        0..=10 => {
            assert(LINEAR_ONE * 25 * c <= LINEAR_ONE * 250) by (nonlinear_arith)
                requires
                    0 <= c <= 10,
            ;
            (LINEAR_ONE * 25 * (c as u64)) / 82688
        },
        11 => 14314102,
        12 => 15722306,
        13 => 17208175,
        14 => 18772888,
        15 => 20417596,
        16 => 22143427,
        17 => 23951486,
        18 => 25842855,
        19 => 27818598,
        20 => 29879756,
        21 => 32027352,
        22 => 34262394,
        23 => 36585869,
        24 => 38998750,
        25 => 41501994,
        26 => 44096543,
        27 => 46783325,
        28 => 49563252,
        29 => 52437225,
        30 => 55406133,
        31 => 58470851,
        32 => 61632242,
        33 => 64891159,
        34 => 68248442,
        35 => 71704922,
        36 => 75261420,
        37 => 78918745,
        38 => 82677699,
        39 => 86539072,
        40 => 90503647,
        41 => 94572196,
        42 => 98745486,
        43 => 103024272,
        44 => 107409303,
        45 => 111901319,
        46 => 116501055,
        47 => 121209234,
        48 => 126026577,
        49 => 130953793,
        50 => 135991589,
        51 => 141140661,
        52 => 146401701,
        53 => 151775394,
        54 => 157262419,
        55 => 162863450,
        56 => 168579152,
        57 => 174410186,
        58 => 180357210,
        59 => 186420871,
        60 => 192601816,
        61 => 198900683,
        62 => 205318106,
        63 => 211854715,
        64 => 218511134,
        65 => 225287983,
        66 => 232185875,
        67 => 239205420,
        68 => 246347225,
        69 => 253611890,
        70 => 261000012,
        71 => 268512183,
        72 => 276148991,
        73 => 283911020,
        74 => 291798849,
        75 => 299813056,
        76 => 307954211,
        77 => 316222883,
        78 => 324619636,
        79 => 333145031,
        80 => 341799625,
        81 => 350583971,
        82 => 359498620,
        83 => 368544117,
        84 => 377721006,
        85 => 387029827,
        86 => 396471116,
        87 => 406045405,
        88 => 415753226,
        89 => 425595105,
        90 => 435571566,
        91 => 445683129,
        92 => 455930313,
        93 => 466313631,
        94 => 476833597,
        95 => 487490718,
        96 => 498285502,
        97 => 509218451,
        98 => 520290067,
        99 => 531500846,
        100 => 542851286,
        101 => 554341878,
        102 => 565973112,
        103 => 577745477,
        104 => 589659456,
        105 => 601715534,
        106 => 613914189,
        107 => 626255900,
        108 => 638741142,
        109 => 651370388,
        110 => 664144109,
        111 => 677062772,
        112 => 690126845,
        113 => 703336791,
        114 => 716693072,
        115 => 730196147,
        116 => 743846474,
        117 => 757644508,
        118 => 771590702,
        119 => 785685508,
        120 => 799929373,
        121 => 814322746,
        122 => 828866071,
        123 => 843559792,
        124 => 858404349,
        125 => 873400182,
        126 => 888547728,
        127 => 903847422,
        128 => 919299698,
        129 => 934904988,
        130 => 950663721,
        131 => 966576326,
        132 => 982643228,
        133 => 998864853,
        134 => 1015241624,
        135 => 1031773960,
        136 => 1048462282,
        137 => 1065307008,
        138 => 1082308553,
        139 => 1099467332,
        140 => 1116783757,
        141 => 1134258240,
        142 => 1151891190,
        143 => 1169683015,
        144 => 1187634121,
        145 => 1205744914,
        146 => 1224015797,
        147 => 1242447171,
        148 => 1261039436,
        149 => 1279792993,
        150 => 1298708237,
        151 => 1317785564,
        152 => 1337025370,
        153 => 1356428047,
        154 => 1375993986,
        155 => 1395723578,
        156 => 1415617212,
        157 => 1435675275,
        158 => 1455898153,
        159 => 1476286230,
        160 => 1496839890,
        161 => 1517559516,
        162 => 1538445487,
        163 => 1559498183,
        164 => 1580717983,
        165 => 1602105262,
        166 => 1623660398,
        167 => 1645383763,
        168 => 1667275731,
        169 => 1689336674,
        170 => 1711566962,
        171 => 1733966965,
        172 => 1756537051,
        173 => 1779277587,
        174 => 1802188939,
        175 => 1825271472,
        176 => 1848525548,
        177 => 1871951530,
        178 => 1895549780,
        179 => 1919320658,
        180 => 1943264521,
        181 => 1967381729,
        182 => 1991672638,
        183 => 2016137604,
        184 => 2040776981,
        185 => 2065591122,
        186 => 2090580380,
        187 => 2115745106,
        188 => 2141085651,
        189 => 2166602364,
        190 => 2192295592,
        191 => 2218165684,
        192 => 2244212985,
        193 => 2270437841,
        194 => 2296840595,
        195 => 2323421590,
        196 => 2350181170,
        197 => 2377119674,
        198 => 2404237444,
        199 => 2431534818,
        200 => 2459012135,
        201 => 2486669731,
        202 => 2514507945,
        203 => 2542527110,
        204 => 2570727561,
        205 => 2599109632,
        206 => 2627673656,
        207 => 2656419964,
        208 => 2685348887,
        209 => 2714460756,
        210 => 2743755899,
        211 => 2773234644,
        212 => 2802897319,
        213 => 2832744250,
        214 => 2862775762,
        215 => 2892992182,
        216 => 2923393831,
        217 => 2953981034,
        218 => 2984754112,
        219 => 3015713387,
        220 => 3046859180,
        221 => 3078191809,
        222 => 3109711594,
        223 => 3141418854,
        224 => 3173313904,
        225 => 3205397062,
        226 => 3237668643,
        227 => 3270128962,
        228 => 3302778334,
        229 => 3335617070,
        230 => 3368645485,
        231 => 3401863890,
        232 => 3435272595,
        233 => 3468871911,
        234 => 3502662148,
        235 => 3536643613,
        236 => 3570816615,
        237 => 3605181462,
        238 => 3639738460,
        239 => 3674487914,
        240 => 3709430129,
        241 => 3744565410,
        242 => 3779894061,
        243 => 3815416384,
        244 => 3851132681,
        245 => 3887043255,
        246 => 3923148405,
        247 => 3959448431,
        248 => 3995943634,
        249 => 4032634311,
        250 => 4069520762,
        251 => 4106603282,
        252 => 4143882169,
        253 => 4181357719,
        254 => 4219030227,
        _ => 4256899988,
    }
}

/// What [`srgb_level`] picks: a channel value whose intensity does not exceed
/// `y` (or zero), above which every channel value's intensity does.
pub proof fn lemma_srgb_level_is_largest(y: nat, k: nat)
    requires
        k <= 255,
    ensures
        srgb_level_up_to(y, k) <= k,
        srgb_level_up_to(y, k) == 0 || linear_level(srgb_level_up_to(y, k) as u8) <= y,
        forall|j: nat| srgb_level_up_to(y, k) < j <= k ==> #[trigger] linear_level(j as u8) > y,
    decreases k,
{
    if k > 0 && linear_level(k as u8) > y {
        lemma_srgb_level_is_largest(y, (k - 1) as nat);
    }
}

/// Encodes a linear intensity, in fixed point, to the gamma-encoded channel
/// value, rounded down.
pub fn linear_to_srgb(intensity: u64) -> (level: u8)
    ensures
        level == srgb_level(intensity as nat),
{
    let mut k: u8 = 255;
    while k > 0
        invariant
            srgb_level(intensity as nat) == srgb_level_up_to(intensity as nat, k as nat),
        decreases k,
    {
        if srgb_to_linear(k) <= intensity {
            return k;
        }
        k = k - 1;
    }
    k
}

/// The grey level of a colour, weighed in linear light.
pub fn conv_grayscale(color: (u8, u8, u8)) -> (gray: u8)
    ensures
        gray == gray_level(color),
{
    let red = srgb_to_linear(color.0);
    let green = srgb_to_linear(color.1);
    let blue = srgb_to_linear(color.2);
    let gray_linear = (299 * red + 587 * green + 114 * blue) / 1000;
    linear_to_srgb(gray_linear)
}

/// The foreground colour to print in on the background `bg`: black where the
/// background's grey level is above `0xA0`, white where it is not.
pub fn calc_fg_color(bg: (u8, u8, u8)) -> (fg: (u8, u8, u8))
    ensures
        fg == contrast(bg),
{
    if conv_grayscale(bg) > 0xA0_u8 {
        (0u8, 0u8, 0u8)
    } else {
        (0xffu8, 0xffu8, 0xffu8)
    }
}

/// A channel value whose intensity does not exceed `y` is not above what
/// [`srgb_level`] picks.
pub proof fn lemma_srgb_level_at_least(y: nat, j: u8, k: nat)
    requires
        linear_level(j) <= y,
        j <= k <= 255,
    ensures
        srgb_level_up_to(y, k) >= j,
    decreases k,
{
    if k > 0 && linear_level(k as u8) > y {
        lemma_srgb_level_at_least(y, j, (k - 1) as nat);
    }
}

/// A grey keeps its value: the grey level of a colour with three equal
/// channels is that channel.
pub proof fn lemma_grey_of_grey(c: u8)
    ensures
        gray_level((c, c, c)) == c,
{
    let y = linear_level(c);
    assert(luminance((c, c, c)) == y);
    lemma_srgb_level_at_least(y, c, 255);
    lemma_srgb_level_is_largest(y, 255);
    let g = srgb_level_up_to(y, 255);
    if g > c {
        lemma_linear_level_increases(c, g as u8);
    }
}

/// The grey level of a colour lies between its darkest and its brightest
/// channel.
pub proof fn lemma_grey_between_channels(color: (u8, u8, u8), lo: u8, hi: u8)
    requires
        lo <= color.0 <= hi,
        lo <= color.1 <= hi,
        lo <= color.2 <= hi,
    ensures
        lo <= gray_level(color) <= hi,
{
    if lo < color.0 {
        lemma_linear_level_increases(lo, color.0);
    }
    if lo < color.1 {
        lemma_linear_level_increases(lo, color.1);
    }
    if lo < color.2 {
        lemma_linear_level_increases(lo, color.2);
    }
    if color.0 < hi {
        lemma_linear_level_increases(color.0, hi);
    }
    if color.1 < hi {
        lemma_linear_level_increases(color.1, hi);
    }
    if color.2 < hi {
        lemma_linear_level_increases(color.2, hi);
    }
    let y = luminance(color);
    assert(linear_level(lo) <= y <= linear_level(hi));
    lemma_srgb_level_at_least(y, lo, 255);
    lemma_srgb_level_is_largest(y, 255);
    let g = srgb_level_up_to(y, 255);
    if g > hi {
        lemma_linear_level_increases(hi, g as u8);
    }
}

} // verus!
