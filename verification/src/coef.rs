use vstd::arithmetic::power2::pow2;
use vstd::prelude::*;

verus! {

/// Numerators of the 91 tap coefficients. Tap `k` of the low-pass filter is
/// the dyadic rational `coef_num()[k] / 2^(coef_shift()[k])`, which is the
/// exact value of the double-precision constant the filter was designed
/// with; the table is symmetric about its center (a linear-phase design)
/// and its sum is just below one (unity DC gain up to rounding).
pub open spec fn coef_num() -> Seq<i64> {
    seq![
        6827815725625739i64,
        -1640878974660149i64,
        -5702138650676421i64,
        2249756623612359i64,
        126991090568841i64,
        -1434590637869387i64,
        -2553931425637161i64,
        -1779469727983489i64,
        5691093272375105i64,
        2074966146095487i64,
        -2750714908879849i64,
        -6917010949610733i64,
        8510132980801063i64,
        304689925558031i64,
        -7003021284172123i64,
        -3049102533239043i64,
        -259510281095947i64,
        1714507013312607i64,
        7107200721095647i64,
        -6867724460531023i64,
        -6505264690964161i64,
        2928689868888643i64,
        2403710295501725i64,
        -7221353131405379i64,
        -6249033725628789i64,
        8506414178616277i64,
        7340417500429211i64,
        2492501243671013i64,
        -3905322519731009i64,
        -5609937525178513i64,
        7364572646397023i64,
        4610539538988299i64,
        -5682902239307149i64,
        -6566048203238323i64,
        299459916833363i64,
        8550386460568247i64,
        6025838514331721i64,
        -2607161736588671i64,
        -5750068320107229i64,
        3016181330832757i64,
        6376195728548451i64,
        -52088725814417i64,
        -1692774041596625i64,
        7069757119230165i64,
        1415256122963767i64,
        1013565251060755i64,
        1415256122963767i64,
        7069757119230165i64,
        -1692774041596625i64,
        -52088725814417i64,
        6376195728548451i64,
        3016181330832757i64,
        -5750068320107229i64,
        -2607161736588671i64,
        6025838514331721i64,
        8550386460568247i64,
        299459916833363i64,
        -6566048203238323i64,
        -5682902239307149i64,
        4610539538988299i64,
        7364572646397023i64,
        -5609937525178513i64,
        -3905322519731009i64,
        2492501243671013i64,
        7340417500429211i64,
        8506414178616277i64,
        -6249033725628789i64,
        -7221353131405379i64,
        2403710295501725i64,
        2928689868888643i64,
        -6505264690964161i64,
        -6867724460531023i64,
        7107200721095647i64,
        1714507013312607i64,
        -259510281095947i64,
        -3049102533239043i64,
        -7003021284172123i64,
        304689925558031i64,
        8510132980801063i64,
        -6917010949610733i64,
        -2750714908879849i64,
        2074966146095487i64,
        5691093272375105i64,
        -1779469727983489i64,
        -2553931425637161i64,
        -1434590637869387i64,
        126991090568841i64,
        2249756623612359i64,
        -5702138650676421i64,
        -1640878974660149i64,
        6827815725625739i64,
    ]
}

/// Base-two shifts of the 91 tap coefficients: tap `k` is
/// `coef_num()[k] / 2^(coef_shift()[k])`.
pub open spec fn coef_shift() -> Seq<u32> {
    seq![
        63u32,
        61u32,
        62u32,
        62u32,
        56u32,
        108u32,
        60u32,
        61u32,
        61u32,
        60u32,
        60u32,
        61u32,
        62u32,
        56u32,
        63u32,
        59u32,
        58u32,
        58u32,
        61u32,
        60u32,
        60u32,
        59u32,
        58u32,
        61u32,
        59u32,
        109u32,
        59u32,
        59u32,
        58u32,
        59u32,
        59u32,
        58u32,
        59u32,
        58u32,
        56u32,
        58u32,
        60u32,
        56u32,
        58u32,
        56u32,
        57u32,
        50u32,
        54u32,
        57u32,
        52u32,
        51u32,
        52u32,
        57u32,
        54u32,
        50u32,
        57u32,
        56u32,
        58u32,
        56u32,
        60u32,
        58u32,
        56u32,
        58u32,
        59u32,
        58u32,
        59u32,
        59u32,
        58u32,
        59u32,
        59u32,
        109u32,
        59u32,
        61u32,
        58u32,
        59u32,
        60u32,
        60u32,
        61u32,
        58u32,
        58u32,
        59u32,
        63u32,
        56u32,
        62u32,
        61u32,
        60u32,
        60u32,
        61u32,
        61u32,
        60u32,
        108u32,
        56u32,
        62u32,
        62u32,
        61u32,
        63u32,
    ]
}

/// The tap numerators as a vector, for callers that evaluate the filter.
#[verifier::rlimit(100)]
pub fn coef_numerators() -> (r: Vec<i64>)
    ensures
        r@ == coef_num(),
{
    let mut v: Vec<i64> = Vec::new();
    v.push(6827815725625739);
    v.push(-1640878974660149);
    v.push(-5702138650676421);
    v.push(2249756623612359);
    v.push(126991090568841);
    v.push(-1434590637869387);
    v.push(-2553931425637161);
    v.push(-1779469727983489);
    v.push(5691093272375105);
    v.push(2074966146095487);
    v.push(-2750714908879849);
    v.push(-6917010949610733);
    v.push(8510132980801063);
    v.push(304689925558031);
    v.push(-7003021284172123);
    v.push(-3049102533239043);
    v.push(-259510281095947);
    v.push(1714507013312607);
    v.push(7107200721095647);
    v.push(-6867724460531023);
    v.push(-6505264690964161);
    v.push(2928689868888643);
    v.push(2403710295501725);
    v.push(-7221353131405379);
    v.push(-6249033725628789);
    v.push(8506414178616277);
    v.push(7340417500429211);
    v.push(2492501243671013);
    v.push(-3905322519731009);
    v.push(-5609937525178513);
    v.push(7364572646397023);
    v.push(4610539538988299);
    v.push(-5682902239307149);
    v.push(-6566048203238323);
    v.push(299459916833363);
    v.push(8550386460568247);
    v.push(6025838514331721);
    v.push(-2607161736588671);
    v.push(-5750068320107229);
    v.push(3016181330832757);
    v.push(6376195728548451);
    v.push(-52088725814417);
    v.push(-1692774041596625);
    v.push(7069757119230165);
    v.push(1415256122963767);
    v.push(1013565251060755);
    v.push(1415256122963767);
    v.push(7069757119230165);
    v.push(-1692774041596625);
    v.push(-52088725814417);
    v.push(6376195728548451);
    v.push(3016181330832757);
    v.push(-5750068320107229);
    v.push(-2607161736588671);
    v.push(6025838514331721);
    v.push(8550386460568247);
    v.push(299459916833363);
    v.push(-6566048203238323);
    v.push(-5682902239307149);
    v.push(4610539538988299);
    v.push(7364572646397023);
    v.push(-5609937525178513);
    v.push(-3905322519731009);
    v.push(2492501243671013);
    v.push(7340417500429211);
    v.push(8506414178616277);
    v.push(-6249033725628789);
    v.push(-7221353131405379);
    v.push(2403710295501725);
    v.push(2928689868888643);
    v.push(-6505264690964161);
    v.push(-6867724460531023);
    v.push(7107200721095647);
    v.push(1714507013312607);
    v.push(-259510281095947);
    v.push(-3049102533239043);
    v.push(-7003021284172123);
    v.push(304689925558031);
    v.push(8510132980801063);
    v.push(-6917010949610733);
    v.push(-2750714908879849);
    v.push(2074966146095487);
    v.push(5691093272375105);
    v.push(-1779469727983489);
    v.push(-2553931425637161);
    v.push(-1434590637869387);
    v.push(126991090568841);
    v.push(2249756623612359);
    v.push(-5702138650676421);
    v.push(-1640878974660149);
    v.push(6827815725625739);
    assert(v@ =~= coef_num());
    v
}

/// The tap shifts as a vector, for callers that evaluate the filter.
#[verifier::rlimit(100)]
pub fn coef_shifts() -> (r: Vec<u32>)
    ensures
        r@ == coef_shift(),
{
    let mut v: Vec<u32> = Vec::new();
    v.push(63);
    v.push(61);
    v.push(62);
    v.push(62);
    v.push(56);
    v.push(108);
    v.push(60);
    v.push(61);
    v.push(61);
    v.push(60);
    v.push(60);
    v.push(61);
    v.push(62);
    v.push(56);
    v.push(63);
    v.push(59);
    v.push(58);
    v.push(58);
    v.push(61);
    v.push(60);
    v.push(60);
    v.push(59);
    v.push(58);
    v.push(61);
    v.push(59);
    v.push(109);
    v.push(59);
    v.push(59);
    v.push(58);
    v.push(59);
    v.push(59);
    v.push(58);
    v.push(59);
    v.push(58);
    v.push(56);
    v.push(58);
    v.push(60);
    v.push(56);
    v.push(58);
    v.push(56);
    v.push(57);
    v.push(50);
    v.push(54);
    v.push(57);
    v.push(52);
    v.push(51);
    v.push(52);
    v.push(57);
    v.push(54);
    v.push(50);
    v.push(57);
    v.push(56);
    v.push(58);
    v.push(56);
    v.push(60);
    v.push(58);
    v.push(56);
    v.push(58);
    v.push(59);
    v.push(58);
    v.push(59);
    v.push(59);
    v.push(58);
    v.push(59);
    v.push(59);
    v.push(109);
    v.push(59);
    v.push(61);
    v.push(58);
    v.push(59);
    v.push(60);
    v.push(60);
    v.push(61);
    v.push(58);
    v.push(58);
    v.push(59);
    v.push(63);
    v.push(56);
    v.push(62);
    v.push(61);
    v.push(60);
    v.push(60);
    v.push(61);
    v.push(61);
    v.push(60);
    v.push(108);
    v.push(56);
    v.push(62);
    v.push(62);
    v.push(61);
    v.push(63);
    assert(v@ =~= coef_shift());
    v
}

/// The scale used to state exact facts about the table: every tap,
/// multiplied by 2^109, is an integer, because the largest shift in the
/// table is 109.
pub open spec fn coef_scale() -> int {
    pow2(109) as int
}

/// Tap `k` scaled up to an integer: `coef_num()[k] * 2^(109 - coef_shift()[k])`,
/// which equals the tap value times 2^109, exactly.
pub open spec fn coef_weight(k: int) -> int {
    coef_num()[k] * pow2((109 - coef_shift()[k]) as nat)
}

/// Sum of the first `k` scaled taps.
pub open spec fn coef_weight_prefix_sum(k: int) -> int
    decreases k,
{
    if k <= 0 {
        0
    } else {
        coef_weight_prefix_sum(k - 1) + coef_weight(k - 1)
    }
}

/// Sum of all 91 scaled taps: the filter's DC gain times 2^109, exactly.
pub open spec fn coef_scaled_sum() -> int {
    coef_weight_prefix_sum(91)
}

/// Dot product of the first `k` taps with a window of samples, in exact
/// integer arithmetic at scale 2^109.
pub open spec fn window_dot_prefix(x: Seq<int>, k: int) -> int
    decreases k,
{
    if k <= 0 {
        0
    } else {
        window_dot_prefix(x, k - 1) + coef_weight(k - 1) * x[k - 1]
    }
}

/// The exact convolution value of one full 91-sample window with the
/// coefficient table, at scale 2^109: the real filter output for that
/// window is `window_dot_scaled(x) / 2^109`.
pub open spec fn window_dot_scaled(x: Seq<int>) -> int {
    window_dot_prefix(x, 91)
}

/// Symmetry law: the table is symmetric about its center tap, the mark of
/// a linear-phase filter — it reads the same backwards, so tap `k` equals
/// tap `90 - k`, exactly.
#[verifier::rlimit(100)]
pub proof fn lemma_coef_symmetric()
    ensures
        coef_num() == coef_num().reverse(),
        coef_shift() == coef_shift().reverse(),
{
    assert(coef_num() =~= coef_num().reverse());
    assert(coef_shift() =~= coef_shift().reverse());
}

#[verifier::rlimit(100)]
proof fn lemma_sum_to_23()
    ensures
        coef_weight_prefix_sum(23) == 4487405760883856068695310953834,
{
    vstd::arithmetic::power2::lemma2_to64();
    vstd::arithmetic::power2::lemma2_to64_rest();
    assert(coef_weight_prefix_sum(0) == 0);
    assert(coef_weight_prefix_sum(1) == 480464818088788920579387293696);
    assert(coef_weight_prefix_sum(2) == 18598446911318384031880445952);
    assert(coef_weight_prefix_sum(3) == -783906225038720130806118875136);
    assert(coef_weight_prefix_sum(4) == -467281128420753717836994576384);
    assert(coef_weight_prefix_sum(5) == 676552927909656755190406053888);
    assert(coef_weight_prefix_sum(6) == 676552927909653886009130315114);
    assert(coef_weight_prefix_sum(7) == -761182649194010850792346260118);
    assert(coef_weight_prefix_sum(8) == -1262058849435480784473444618902);
    assert(coef_weight_prefix_sum(9) == 339841496864472938972037999978);
    assert(coef_weight_prefix_sum(10) == 1507943592159726616077930818922);
    assert(coef_weight_prefix_sum(11) == -40571237669492860809153122966);
    assert(coef_weight_prefix_sum(12) == -1987536733618526474733126193814);
    assert(coef_weight_prefix_sum(13) == -789841992330744108581302080150);
    assert(coef_weight_prefix_sum(14) == 1954560878082641045646668426602);
    assert(coef_weight_prefix_sum(15) == 1461767064865996896892000365930);
    assert(coef_weight_prefix_sum(16) == -1971217193261450465305973002902);
    assert(coef_weight_prefix_sum(17) == -2555582395882710256064319492758);
    assert(coef_weight_prefix_sum(18) == 1305144177256669198936608828778);
    assert(coef_weight_prefix_sum(19) == 3305643334705023967617028943210);
    assert(coef_weight_prefix_sum(20) == -560541830461320513190136418966);
    assert(coef_weight_prefix_sum(21) == -4222680285232900550304062018198);
    assert(coef_weight_prefix_sum(22) == -925268634680240700054080098966);
    assert(coef_weight_prefix_sum(23) == 4487405760883856068695310953834);
}

#[verifier::rlimit(100)]
proof fn lemma_sum_to_46()
    ensures
        coef_weight_prefix_sum(46) == 470588700442199480416231748612415,
{
    lemma_sum_to_23();
    vstd::arithmetic::power2::lemma2_to64();
    vstd::arithmetic::power2::lemma2_to64_rest();
    assert(coef_weight_prefix_sum(24) == 2454775556402104237447385935210);
    assert(coef_weight_prefix_sum(25) == -4581010933139764882570680767126);
    assert(coef_weight_prefix_sum(26) == -4581010933139756376156502150849);
    assert(coef_weight_prefix_sum(27) == 3683564446779459204279327338815);
    assert(coef_weight_prefix_sum(28) == 6489871364833777203851148996927);
    assert(coef_weight_prefix_sum(29) == -2304133157477312118650802458305);
    assert(coef_weight_prefix_sum(30) == -8620361294468740535786599796417);
    assert(coef_weight_prefix_sum(31) == -328589637954595439809116688065);
    assert(coef_weight_prefix_sum(32) == 10053422436927725455591624225087);
    assert(coef_weight_prefix_sum(33) == 3655043335096067074869683106111);
    assert(coef_weight_prefix_sum(34) == -11130382785604346050136570252993);
    assert(coef_weight_prefix_sum(35) == -8433087645878079391531180936897);
    assert(coef_weight_prefix_sum(36) == 10820670992966366298138100183359);
    assert(coef_weight_prefix_sum(37) == 14212916503933756537647339221311);
    assert(coef_weight_prefix_sum(38) == -9270308746856951387922407280321);
    assert(coef_weight_prefix_sum(39) == -22218311518751856606287422738113);
    assert(coef_weight_prefix_sum(40) == 4949034716488645679572281536831);
    assert(coef_weight_prefix_sum(41) == 33664867423620797867244345438527);
    assert(coef_weight_prefix_sum(42) == 3637761354115218733574298612031);
    assert(coef_weight_prefix_sum(43) == -57350850989540852032619766795969);
    assert(coef_weight_prefix_sum(44) == -25511495461775969677825012584129);
    assert(coef_weight_prefix_sum(45) == 178448406874653916026126757605695);
    assert(coef_weight_prefix_sum(46) == 470588700442199480416231748612415);
}

#[verifier::rlimit(100)]
proof fn lemma_sum_to_69()
    ensures
        coef_weight_prefix_sum(69) == 649962375951533637142412586317076,
{
    lemma_sum_to_46();
    vstd::arithmetic::power2::lemma2_to64();
    vstd::arithmetic::power2::lemma2_to64_rest();
    assert(coef_weight_prefix_sum(47) == 674548602778629366120183518802239);
    assert(coef_weight_prefix_sum(48) == 706387958306394248474978273014079);
    assert(coef_weight_prefix_sum(49) == 645399345962738177708784207606079);
    assert(coef_weight_prefix_sum(50) == 615372239893232598575114160779583);
    assert(coef_weight_prefix_sum(51) == 644088072600364750762786224681279);
    assert(coef_weight_prefix_sum(52) == 671255418835605253048645928956223);
    assert(coef_weight_prefix_sum(53) == 658307416063710347830280913498431);
    assert(coef_weight_prefix_sum(54) == 634824190812919639904711166996799);
    assert(coef_weight_prefix_sum(55) == 638216436323887030144220406034751);
    assert(coef_weight_prefix_sum(56) == 657470194962731475833889687155007);
    assert(coef_weight_prefix_sum(57) == 660167490102457742492495076471103);
    assert(coef_weight_prefix_sum(58) == 645382063981757329367488823111999);
    assert(coef_weight_prefix_sum(59) == 638983684879925670986766881993023);
    assert(coef_weight_prefix_sum(60) == 649365696954807991882167622906175);
    assert(coef_weight_prefix_sum(61) == 657657468611322136978145106014527);
    assert(coef_weight_prefix_sum(62) == 651341240474330708561009308676415);
    assert(coef_weight_prefix_sum(63) == 642547235952019619238507357221183);
    assert(coef_weight_prefix_sum(64) == 645353542870073937238079178879295);
    assert(coef_weight_prefix_sum(65) == 653618118249993152818515008368959);
    assert(coef_weight_prefix_sum(66) == 653618118249993161324929186985236);
    assert(coef_weight_prefix_sum(67) == 646582331760451292204911120282900);
    assert(coef_weight_prefix_sum(68) == 644549701555969540373663195264276);
    assert(coef_weight_prefix_sum(69) == 649962375951533637142412586317076);
}

#[verifier::rlimit(100)]
proof fn lemma_sum_to_91()
    ensures
        coef_weight_prefix_sum(91) == 649037107316853396442358506218110,
{
    lemma_sum_to_69();
    vstd::arithmetic::power2::lemma2_to64();
    vstd::arithmetic::power2::lemma2_to64_rest();
    assert(coef_weight_prefix_sum(70) == 653259787602086296992662568236308);
    assert(coef_weight_prefix_sum(71) == 649597649147314716955548642637076);
    assert(coef_weight_prefix_sum(72) == 645731463982148372474741477274900);
    assert(coef_weight_prefix_sum(73) == 647731963139596727243421897389332);
    assert(coef_weight_prefix_sum(74) == 651592689712736106698422825710868);
    assert(coef_weight_prefix_sum(75) == 651008324510114846907664479221012);
    assert(coef_weight_prefix_sum(76) == 647575340251987399545466505852180);
    assert(coef_weight_prefix_sum(77) == 647082546438770755396711837791508);
    assert(coef_weight_prefix_sum(78) == 649826949309184140550939808298260);
    assert(coef_weight_prefix_sum(79) == 651024644050471922917091632411924);
    assert(coef_weight_prefix_sum(80) == 649077678554522889303167659341076);
    assert(coef_weight_prefix_sum(81) == 647529163724693669826280575399188);
    assert(coef_weight_prefix_sum(82) == 648697265819988923503386468218132);
    assert(coef_weight_prefix_sum(83) == 650299166166288877226831950837012);
    assert(coef_weight_prefix_sum(84) == 649798289966047407293150852478228);
    assert(coef_weight_prefix_sum(85) == 648360554388943742556349375902996);
    assert(coef_weight_prefix_sum(86) == 648360554388943739687168100164222);
    assert(coef_weight_prefix_sum(87) == 649504388445274150160195500794494);
    assert(coef_weight_prefix_sum(88) == 649821013541892116573164625093246);
    assert(coef_weight_prefix_sum(89) == 649018508869942078058326625772158);
    assert(coef_weight_prefix_sum(90) == 648556642498764607521779118924414);
    assert(coef_weight_prefix_sum(91) == 649037107316853396442358506218110);
}

/// DC gain law: the taps sum to slightly less than one. At scale 2^109 the
/// exact sum misses 2^109 by 57123953534934402, a relative error below
/// 10^-16, so a constant input passes through the filter with its level
/// preserved to within that error.
pub proof fn lemma_dc_gain()
    ensures
        coef_scaled_sum() == coef_scale() - 57123953534934402,
        0 < coef_scale() - coef_scaled_sum() < coef_scale() / 10000000000000000,
{
    lemma_sum_to_91();
    assert(pow2(109) == 649037107316853453566312041152512) by {
        vstd::arithmetic::power2::lemma2_to64();
        vstd::arithmetic::power2::lemma2_to64_rest();
        vstd::arithmetic::power2::lemma_pow2_adds(64, 45);
    }
}

proof fn lemma_dc_prefix(x: Seq<int>, v: int, k: int)
    requires
        x.len() == 91,
        0 <= k <= 91,
        forall|i: int| 0 <= i < 91 ==> x[i] == v,
    ensures
        window_dot_prefix(x, k) == v * coef_weight_prefix_sum(k),
    decreases k,
{
    if k > 0 {
        lemma_dc_prefix(x, v, k - 1);
        assert(v * coef_weight_prefix_sum(k - 1) + coef_weight(k - 1) * v == v * (
        coef_weight_prefix_sum(k - 1) + coef_weight(k - 1))) by (nonlinear_arith);
    }
}

/// DC response law: convolving a constant window of value `v` with the
/// table yields, in exact arithmetic, `v` times the coefficient sum — the
/// filter applies its DC gain to a constant input. With `lemma_dc_gain`,
/// the exact filter output for a constant window is `v` up to a relative
/// error below 10^-16.
pub proof fn lemma_dc_response(x: Seq<int>, v: int)
    requires
        x.len() == 91,
        forall|i: int| 0 <= i < 91 ==> x[i] == v,
    ensures
        window_dot_scaled(x) == v * coef_scaled_sum(),
{
    lemma_dc_prefix(x, v, 91);
}

/// DC response at every interior position: in a constant input of value
/// `v` that is at least one filter length long, every position with a full
/// tap window sees a constant window, so its exact convolution value is
/// `v` times the coefficient sum.
pub proof fn lemma_dc_interior(x: Seq<int>, v: int, i: int)
    requires
        x.len() >= 91,
        forall|k: int| 0 <= k < x.len() ==> x[k] == v,
        90 <= i < x.len(),
    ensures
        window_dot_scaled(x.subrange(i - 90, i + 1)) == v * coef_scaled_sum(),
{
    let w = x.subrange(i - 90, i + 1);
    assert(forall|k: int| 0 <= k < 91 ==> w[k] == v);
    lemma_dc_response(w, v);
}

} // verus!
