//! The seeds: forty hand-authored puzzles with their solutions, ten for each
//! tier of difficulty, the tiers one after the other from the easiest on.
//!
//! Every string is read row by row. The letters `a` to `i` stand for the nine
//! symbols and `-` for an unsolved cell.

use vstd::prelude::*;
use crate::corpus::{
    cells_agree_from, differs_from_rest, passes_checks, unit_distinct_from, units_distinct_from,
    Difficulty, Seed,
};

verus! {

/// The number of seeds.
pub const SEED_COUNT: usize = 40;

pub const EASY_0_PUZZLE: &'static str =
    "g--d--caf---g----ii-f--hg-bb-iaedhgc--afcg--d-g-b-----f-d--abc---b------c--h-bfia";

pub const EASY_0_SOLUTION: &'static str =
    "gbhdiecafacegbfdhiidfcahgebbfiaedhgcehafcgibddgcbhiafefidegabchhabifcedgceghdbfia";

pub const EASY_1_PUZZLE: &'static str =
    "bf-hiac-g-gi------a-hf-g---g-a-fi--ddef---i-b--b-a-g-ff---gbh--hac---------e-cfd-";

pub const EASY_1_SOLUTION: &'static str =
    "bfdhiacegegicbdafhachfegdbighabfiecddefgchiabcibdaeghffdeagbhichacidfbgeibgehcfda";

pub const EASY_2_PUZZLE: &'static str =
    "hgad-e--b-cbf-ge---df-aih-----i-------d-ecai-g---fa----igadf----fe-i-----h-eg-fd-";

pub const EASY_2_SOLUTION: &'static str =
    "hgadceifbicbfhgeadedfbaihcgcahibdgeffbdgecaihgeihfadbcbigadfchedfecihbgaahcegbfdi";

pub const EASY_3_PUZZLE: &'static str =
    "-fbe-c----e-----a---g-ihb--gb-fhdc-eid-g-eahbch-----f-----ef-ga-g----e-i--hi-----";

pub const EASY_3_SOLUTION: &'static str =
    "afbegcidhheidfbgacdcgaihbefgbafhdcieidfgceahbchebaidfgbidcefhgafgchdaebieahibgfcd";

pub const EASY_4_PUZZLE: &'static str =
    "c--d-fgeb---g--i-hg-ih--da-a-g-b-cde-edc--a--b--------i-e-cd-ha-fb-h-e-ch--e-----";

pub const EASY_4_SOLUTION: &'static str =
    "cahdifgebedfgabichgbihecdafahgfbicdefedcghabibicadehfgigebcdfhadfbihaegchcaefgbid";

pub const EASY_5_PUZZLE: &'static str =
    "bi---ec--eg--h-fbdf--------i-hba-dfe----ehbig--bf-d-h--f-e-a-c-----g-e--cde--f--a";

pub const EASY_5_SOLUTION: &'static str =
    "bidgfecahegcahifbdfhadcbgeiichbagdfedafcehbiggebfidahchfgedaicbabihgcedfcdeibfhga";

pub const EASY_6_PUZZLE: &'static str =
    "-----ef-ha--bf--ecfe-gc---a----gbch--a--df-b--bi----f-h-af-gidbdf----g--i--c--ha-";

pub const EASY_6_SOLUTION: &'static str =
    "bicdaefghahgbfidecfedgchbiaedfagbchicahidfebggbiehcafdhcafegidbdfbhiagceigecbdhaf";

pub const EASY_7_PUZZLE: &'static str =
    "--fg--hec-ebc-------h-dfgabb--h-a-fg-g-df-i--f-a---b--hf----ad---if----hc-ea---bi";

pub const EASY_7_SOLUTION: &'static str =
    "dafgbihecgebcahdifichedfgabbidhcaefgegcdfbihafhaigebcdhfgbicadeabifedcghcdeahgfbi";

pub const EASY_8_PUZZLE: &'static str =
    "-----b-f-e-aih----bi----a----e---i---g-bf--a-----cihg-ic-fdhg-a--h---f-cgef-iad-b";

pub const EASY_8_SOLUTION: &'static str =
    "dhcgabefiefaihcbdgbigdefachcaehgdibfhgibfecadfbdacihgeicbfdhgeaadhebgficgefciadhb";

pub const EASY_9_PUZZLE: &'static str =
    "e--f-b-------eid-f--h----b-ge-c-fadhab-ihgfe-hc--d----d-g---cf---eg--h-bf---i----";

pub const EASY_9_SOLUTION: &'static str =
    "edcfgbihabgaheidcfifhdcaebggeicbfadhabdihgfechcfadebgidigbahcfecaegfdhibfhbeicgad";

pub const MEDIUM_0_PUZZLE: &'static str =
    "g-hedcf---i-f--a--e--a-----c--i-deh-i-------g--g--e---a----f--c-cf-e-gi-b-------e";

pub const MEDIUM_0_SOLUTION: &'static str =
    "gahedcfbidicfbgaehefbaihcgdcbaigdehfihebfadcgfdghceiabaeighfbdchcfdebgiabgdcaihfe";

pub const MEDIUM_1_PUZZLE: &'static str =
    "-di--ac---b-cid-h---h--b-d-----f----h-d----fca---c-i--d----i-e-bh---cd-g-g---fac-";

pub const MEDIUM_1_SOLUTION: &'static str =
    "fdighacbeebgcidfhacahfebgdigecifhbadhidabgefcafbdceighdcabgihefbhfeacdigigehdfacb";

pub const MEDIUM_2_PUZZLE: &'static str =
    "--ac-i------ah-d---e----i---a-e-bc----g--f--ad---gae--ig-fa------hd-e-g-c-d-b----";

pub const MEDIUM_2_SOLUTION: &'static str =
    "hdaceigfbbifahgdcegecbfdiahfaiedbchgehgicfbdadcbhgaeifigefachbdabhdiefgccfdgbhaei";

pub const MEDIUM_3_PUZZLE: &'static str =
    "fg----i---h--f-e--e-bd--afh-f--hg--ic------b----f-c-----c-------eiac-gdf-b-----e-";

pub const MEDIUM_3_SOLUTION: &'static str =
    "fgaebhicdihdcfaegbecbdgiafhdfebhgcaicahidefbgbigfacdhegdchefbiaheiacbgdfabfgidhec";

pub const MEDIUM_4_PUZZLE: &'static str =
    "--d-g-fi---e-ci-d-a----eg-----i---f---bg--ec-e--d--haig----f----ha--------ch-g-e-";

pub const MEDIUM_4_SOLUTION: &'static str =
    "cbdaghfiehgefciadbaifbdeghcdahiecbfgifbghaecdecgdfbhaigeicafdbhbhaeidcgffdchbgiea";

pub const MEDIUM_5_PUZZLE: &'static str =
    "----d-a---a-ie---di------h-d-e--cg-b-b-e--i----c-i--dh--h-gf--c------b-g--i-ce-a-";

pub const MEDIUM_5_SOLUTION: &'static str =
    "ehfcdgabicabiehfgdigdfbachediehacgfbhbgefdicaafcgibedhbehagfdicfcadhibeggdibcehaf";

pub const MEDIUM_6_PUZZLE: &'static str =
    "---cfa-ibf---i-------g---f--i--h-cd-gdf--------cd--fb-------bc--gb---dhi---he--g-";

pub const MEDIUM_6_SOLUTION: &'static str =
    "dhecfagibfbgeidhaccaigbhefdbiafhecdggdfbaciehhecdgifbaafhidgbceegbacfdhiicdhebagf";

pub const MEDIUM_7_PUZZLE: &'static str =
    "a------g-b--di-a-f--e--ahi----a------bae--------ichbaei---de------c-igd-d-h----ci";

pub const MEDIUM_7_SOLUTION: &'static str =
    "aidhefcgbbhgdicaeffcebgahidheiabgdfccbaefdihggdfichbaeiacgdefbhefbchigdadghfabeci";

pub const MEDIUM_8_PUZZLE: &'static str =
    "----g-------ci--bg-i-de-af-------beh-----fgdi---eb-f----ah--ig---hg-d---cd--a----";

pub const MEDIUM_8_SOLUTION: &'static str =
    "hacfgbdieefdciahbggibdehafcagfidcbehbceahfgdidhiebgfcafbahceigdiehgfdcabcdgbaiehf";

pub const MEDIUM_9_PUZZLE: &'static str =
    "gfbc---dh-a-------d--a--fi--daifc--ech------f-------c-f---e--b---d-----i--igh-d--";

pub const MEDIUM_9_SOLUTION: &'static str =
    "gfbcieadhiahbdfcegdceaghfibbdaifcghechgebdiafeifhagbcdfgcdeihbahbdfcaegiaeighbdfc";

pub const HARD_0_PUZZLE: &'static str =
    "-e-fh--a-g----ed---a--b-f---ih----dc--------a----g----b---i---dhc-gf-----g------e";

pub const HARD_0_SOLUTION: &'static str =
    "debfhciagghfiaedcbcaidbgfehaihbefgdcfbgcdiehaedchgabifbfaeihcgdhcegfdabiigdacbhfe";

pub const HARD_1_PUZZLE: &'static str =
    "----i-b---fc--a-h-eb----i-fcieg--ad---hd-e----d--a----f---b-e-i-------b--h--e----";

pub const HARD_1_SOLUTION: &'static str =
    "hageifbcdifcbdagheebdchgiafciegfbadhaghdcefibbdfiahcegfcahbdegideifgchbaghbaeidfc";

pub const HARD_2_PUZZLE: &'static str =
    "-------hg-----h-d-a-g---ei--ce--dg--dbf---------bfid--hg---f----d--h---c--a-eg---";

pub const HARD_2_SOLUTION: &'static str =
    "bedfiachgficeghbdaahgdbceificehadgfbdbfgceiahgahbfidcehgbcdfaeiediahbfgccfaieghbd";

pub const HARD_3_PUZZLE: &'static str =
    "h---f------------i--e---a-h-dhe---a---fh-b----i--c---gf-ga-di--a-i---d-bce------a";

pub const HARD_3_SOLUTION: &'static str =
    "hgcifabdedabgehfciifebdcaghbdheigcafgcfhabeideiadcfhbgfbgahdiecahicgedfbcedfbigha";

pub const HARD_4_PUZZLE: &'static str =
    "f----dha----b------a------dic---h------c--egb-----------a-----ed--f-ec-g-fg------";

pub const HARD_4_SOLUTION: &'static str =
    "febigdhachdcbfageigaiehcbfdicegbhadfahfcdiegbbgdaefichcbadigfhedihfaecbgefghcbdia";

pub const HARD_5_PUZZLE: &'static str =
    "c-a---i---b--c--ede----g--c-e---dga--c---b--i--gf-----b-----ei------a-cg--ie----a";

pub const HARD_5_SOLUTION: &'static str =
    "cfahdeigbgbhacifedeidbfgahchebcidgafacfgebhdiidgfahcbebacdgfeihfheibadcgdgiehcbfa";

pub const HARD_6_PUZZLE: &'static str =
    "--a-i---cc-g-------h--e--a--a---ib---d--f--h-----------i---d-f------g-c-dg---b--h";

pub const HARD_6_SOLUTION: &'static str =
    "beagifhdccfghdaibeihdbecfaghafcgibedgdbafechiecidbhagfaihecdgfbfbeihgdcadgcfabeih";

pub const HARD_7_PUZZLE: &'static str =
    "i--f--ec------a-fbg-b-i---h-d---ihg-----b---fe---a------d-----i---ie-b-------g---";

pub const HARD_7_SOLUTION: &'static str =
    "iahfdbecgdcehgaifbgfbeicdahbdacfihgechgdbeaifeifgahcbdhbdacfgeifgciedbhaaeibhgfdc";

pub const HARD_8_PUZZLE: &'static str =
    "--e---c------i--g-------d-hbaf--------cfhe--ie------f-h-d-c-----f-h----c---i-ga--";

pub const HARD_8_SOLUTION: &'static str =
    "fdegbhciaacheidfgbibgcfadehbafdgihcedgcfhebaiehibacgfdhidacfebggfahebidccebidgahf";

pub const HARD_9_PUZZLE: &'static str =
    "--f-d-i---g--b-a-d--c-a-----c-i---e---eh--g---------ac---------b---i-e----gf--d--";

pub const HARD_9_SOLUTION: &'static str =
    "abfcdhigehgiebfacddecgaibhfgcdifahebfaehcbgdiihbdegfacefabgdcihbdhaicefgcigfhedba";

pub const EXPERT_0_PUZZLE: &'static str =
    "-ica------------bh----g--f--g---a---i-e----c-a---f------d--bg------c---e-fg----id";

pub const EXPERT_0_SOLUTION: &'static str =
    "ficabhdeggeaidfcbhdhbegcifabgfceahdiidebhgacfachdfiegbeadfibghchbigcdfaecfghaebid";

pub const EXPERT_1_PUZZLE: &'static str =
    "-h-i------i---------f--bh--b---a--ed-ca------i--f---h--------c----he--f-ab--df---";

pub const EXPERT_1_SOLUTION: &'static str =
    "ehbicdgafdigafhcbecafegbhdibghcaifedfcadheigbiedfbgahchfebiadcggdihecbfaabcgdfeih";

pub const EXPERT_2_PUZZLE: &'static str =
    "-h--c-f-ice-------b--ia--------g-h------e---ff--h---i----b---eh----------ga--f--c";

pub const EXPERT_2_SOLUTION: &'static str =
    "ahgdcefbiceigfbahdbfdiahcgediefgchabgbhaeidcffachbdeigicfbdagehedbchgifahgaeifbdc";

pub const EXPERT_3_PUZZLE: &'static str =
    "a----db---g-c----f--e-f--i---------i----h-f-d--g---ch---b--e-c-ca------h-d-------";

pub const EXPERT_3_SOLUTION: &'static str =
    "afchidbegigdcebhafhbegfadicfehdgcabibcaehifgddigbafcheghbfdeicacafibgedhediachgfb";

pub const EXPERT_4_PUZZLE: &'static str =
    "------c--g-b--a---------g-h---e----gb--id-----i-f---eb----i---c-he-f-d--a------h-";

pub const EXPERT_4_SOLUTION: &'static str =
    "edhbgicfagfbchaeidicadefgbhhafebcidgbegidhacfdicfaghebfgdhiebaccheafbdgiabigcdfhe";

pub const EXPERT_5_PUZZLE: &'static str =
    "---bf-i-------hc-aa----------g------h--c-e----i----bh----f---g--f-----e---hig-a--";

pub const EXPERT_5_SOLUTION: &'static str =
    "chebfaidgfgdeihcbaabidcgefhbeghdifachafcbegiddicgafbheicafedhgbgfbahcdeiedhigbacf";

pub const EXPERT_6_PUZZLE: &'static str =
    "--c-----d---g-i--h-i----b--ace------d--bh----b--f---------e---------bea--d--a--c-";

pub const EXPERT_6_SOLUTION: &'static str =
    "gecabhifdfbagdicehhidefcbgaaceigdhbfdgfbheaicbhifcagdeiagcefdhbcfhdibeagedbhagfci";

pub const EXPERT_7_PUZZLE: &'static str =
    "-----d-h--h-----a-gb------i-----a--g----eh-c--i--d-----ge---a--d----f-----ab--i--";

pub const EXPERT_7_SOLUTION: &'static str =
    "iacefdghbehdgibcafgbfhacedicehfbadigfdgiehbcaaibcdgfehbgedhiafcdciagfhbehfabceigd";

pub const EXPERT_8_PUZZLE: &'static str =
    "-bi-------c----e---------af---eba-----a-i-g------c--i----h-e--d-e------gc-b--f---";

pub const EXPERT_8_SOLUTION: &'static str =
    "fbiaegdhcachdfbegiedgchibafgicebafdhbhafidgcedfegchaibiafhgecbdhedbacifgcgbidfhea";

pub const EXPERT_9_PUZZLE: &'static str =
    "---i--h-bc----b----g----a----gd-----e--h-f------b---ac-c------ha-----id--i--gd---";

pub const EXPERT_9_SOLUTION: &'static str =
    "deficahgbchagfbdeibgiedhacffagdicbheebchafgididhbegfacgcdabiefhafbcheidghiefgdcba";

/// The seed at place `index` of the corpus.
pub open spec fn seed(index: int) -> Seed {
    if index == 0 {
        Seed { puzzle: EASY_0_PUZZLE, solution: EASY_0_SOLUTION, difficulty: Difficulty::Easy }
    } else if index == 1 {
        Seed { puzzle: EASY_1_PUZZLE, solution: EASY_1_SOLUTION, difficulty: Difficulty::Easy }
    } else if index == 2 {
        Seed { puzzle: EASY_2_PUZZLE, solution: EASY_2_SOLUTION, difficulty: Difficulty::Easy }
    } else if index == 3 {
        Seed { puzzle: EASY_3_PUZZLE, solution: EASY_3_SOLUTION, difficulty: Difficulty::Easy }
    } else if index == 4 {
        Seed { puzzle: EASY_4_PUZZLE, solution: EASY_4_SOLUTION, difficulty: Difficulty::Easy }
    } else if index == 5 {
        Seed { puzzle: EASY_5_PUZZLE, solution: EASY_5_SOLUTION, difficulty: Difficulty::Easy }
    } else if index == 6 {
        Seed { puzzle: EASY_6_PUZZLE, solution: EASY_6_SOLUTION, difficulty: Difficulty::Easy }
    } else if index == 7 {
        Seed { puzzle: EASY_7_PUZZLE, solution: EASY_7_SOLUTION, difficulty: Difficulty::Easy }
    } else if index == 8 {
        Seed { puzzle: EASY_8_PUZZLE, solution: EASY_8_SOLUTION, difficulty: Difficulty::Easy }
    } else if index == 9 {
        Seed { puzzle: EASY_9_PUZZLE, solution: EASY_9_SOLUTION, difficulty: Difficulty::Easy }
    } else if index == 10 {
        Seed { puzzle: MEDIUM_0_PUZZLE, solution: MEDIUM_0_SOLUTION, difficulty: Difficulty::Medium }
    } else if index == 11 {
        Seed { puzzle: MEDIUM_1_PUZZLE, solution: MEDIUM_1_SOLUTION, difficulty: Difficulty::Medium }
    } else if index == 12 {
        Seed { puzzle: MEDIUM_2_PUZZLE, solution: MEDIUM_2_SOLUTION, difficulty: Difficulty::Medium }
    } else if index == 13 {
        Seed { puzzle: MEDIUM_3_PUZZLE, solution: MEDIUM_3_SOLUTION, difficulty: Difficulty::Medium }
    } else if index == 14 {
        Seed { puzzle: MEDIUM_4_PUZZLE, solution: MEDIUM_4_SOLUTION, difficulty: Difficulty::Medium }
    } else if index == 15 {
        Seed { puzzle: MEDIUM_5_PUZZLE, solution: MEDIUM_5_SOLUTION, difficulty: Difficulty::Medium }
    } else if index == 16 {
        Seed { puzzle: MEDIUM_6_PUZZLE, solution: MEDIUM_6_SOLUTION, difficulty: Difficulty::Medium }
    } else if index == 17 {
        Seed { puzzle: MEDIUM_7_PUZZLE, solution: MEDIUM_7_SOLUTION, difficulty: Difficulty::Medium }
    } else if index == 18 {
        Seed { puzzle: MEDIUM_8_PUZZLE, solution: MEDIUM_8_SOLUTION, difficulty: Difficulty::Medium }
    } else if index == 19 {
        Seed { puzzle: MEDIUM_9_PUZZLE, solution: MEDIUM_9_SOLUTION, difficulty: Difficulty::Medium }
    } else if index == 20 {
        Seed { puzzle: HARD_0_PUZZLE, solution: HARD_0_SOLUTION, difficulty: Difficulty::Hard }
    } else if index == 21 {
        Seed { puzzle: HARD_1_PUZZLE, solution: HARD_1_SOLUTION, difficulty: Difficulty::Hard }
    } else if index == 22 {
        Seed { puzzle: HARD_2_PUZZLE, solution: HARD_2_SOLUTION, difficulty: Difficulty::Hard }
    } else if index == 23 {
        Seed { puzzle: HARD_3_PUZZLE, solution: HARD_3_SOLUTION, difficulty: Difficulty::Hard }
    } else if index == 24 {
        Seed { puzzle: HARD_4_PUZZLE, solution: HARD_4_SOLUTION, difficulty: Difficulty::Hard }
    } else if index == 25 {
        Seed { puzzle: HARD_5_PUZZLE, solution: HARD_5_SOLUTION, difficulty: Difficulty::Hard }
    } else if index == 26 {
        Seed { puzzle: HARD_6_PUZZLE, solution: HARD_6_SOLUTION, difficulty: Difficulty::Hard }
    } else if index == 27 {
        Seed { puzzle: HARD_7_PUZZLE, solution: HARD_7_SOLUTION, difficulty: Difficulty::Hard }
    } else if index == 28 {
        Seed { puzzle: HARD_8_PUZZLE, solution: HARD_8_SOLUTION, difficulty: Difficulty::Hard }
    } else if index == 29 {
        Seed { puzzle: HARD_9_PUZZLE, solution: HARD_9_SOLUTION, difficulty: Difficulty::Hard }
    } else if index == 30 {
        Seed { puzzle: EXPERT_0_PUZZLE, solution: EXPERT_0_SOLUTION, difficulty: Difficulty::Expert }
    } else if index == 31 {
        Seed { puzzle: EXPERT_1_PUZZLE, solution: EXPERT_1_SOLUTION, difficulty: Difficulty::Expert }
    } else if index == 32 {
        Seed { puzzle: EXPERT_2_PUZZLE, solution: EXPERT_2_SOLUTION, difficulty: Difficulty::Expert }
    } else if index == 33 {
        Seed { puzzle: EXPERT_3_PUZZLE, solution: EXPERT_3_SOLUTION, difficulty: Difficulty::Expert }
    } else if index == 34 {
        Seed { puzzle: EXPERT_4_PUZZLE, solution: EXPERT_4_SOLUTION, difficulty: Difficulty::Expert }
    } else if index == 35 {
        Seed { puzzle: EXPERT_5_PUZZLE, solution: EXPERT_5_SOLUTION, difficulty: Difficulty::Expert }
    } else if index == 36 {
        Seed { puzzle: EXPERT_6_PUZZLE, solution: EXPERT_6_SOLUTION, difficulty: Difficulty::Expert }
    } else if index == 37 {
        Seed { puzzle: EXPERT_7_PUZZLE, solution: EXPERT_7_SOLUTION, difficulty: Difficulty::Expert }
    } else if index == 38 {
        Seed { puzzle: EXPERT_8_PUZZLE, solution: EXPERT_8_SOLUTION, difficulty: Difficulty::Expert }
    } else {
        Seed { puzzle: EXPERT_9_PUZZLE, solution: EXPERT_9_SOLUTION, difficulty: Difficulty::Expert }
    }
}

/// The seed at place `index` of the corpus.
pub fn seed_at(index: usize) -> (found: Seed)
    requires
        index < SEED_COUNT,
    ensures
        found == seed(index as int),
{
    match index {
        0 => Seed { puzzle: EASY_0_PUZZLE, solution: EASY_0_SOLUTION, difficulty: Difficulty::Easy },
        1 => Seed { puzzle: EASY_1_PUZZLE, solution: EASY_1_SOLUTION, difficulty: Difficulty::Easy },
        2 => Seed { puzzle: EASY_2_PUZZLE, solution: EASY_2_SOLUTION, difficulty: Difficulty::Easy },
        3 => Seed { puzzle: EASY_3_PUZZLE, solution: EASY_3_SOLUTION, difficulty: Difficulty::Easy },
        4 => Seed { puzzle: EASY_4_PUZZLE, solution: EASY_4_SOLUTION, difficulty: Difficulty::Easy },
        5 => Seed { puzzle: EASY_5_PUZZLE, solution: EASY_5_SOLUTION, difficulty: Difficulty::Easy },
        6 => Seed { puzzle: EASY_6_PUZZLE, solution: EASY_6_SOLUTION, difficulty: Difficulty::Easy },
        7 => Seed { puzzle: EASY_7_PUZZLE, solution: EASY_7_SOLUTION, difficulty: Difficulty::Easy },
        8 => Seed { puzzle: EASY_8_PUZZLE, solution: EASY_8_SOLUTION, difficulty: Difficulty::Easy },
        9 => Seed { puzzle: EASY_9_PUZZLE, solution: EASY_9_SOLUTION, difficulty: Difficulty::Easy },
        10 => Seed { puzzle: MEDIUM_0_PUZZLE, solution: MEDIUM_0_SOLUTION, difficulty: Difficulty::Medium },
        11 => Seed { puzzle: MEDIUM_1_PUZZLE, solution: MEDIUM_1_SOLUTION, difficulty: Difficulty::Medium },
        12 => Seed { puzzle: MEDIUM_2_PUZZLE, solution: MEDIUM_2_SOLUTION, difficulty: Difficulty::Medium },
        13 => Seed { puzzle: MEDIUM_3_PUZZLE, solution: MEDIUM_3_SOLUTION, difficulty: Difficulty::Medium },
        14 => Seed { puzzle: MEDIUM_4_PUZZLE, solution: MEDIUM_4_SOLUTION, difficulty: Difficulty::Medium },
        15 => Seed { puzzle: MEDIUM_5_PUZZLE, solution: MEDIUM_5_SOLUTION, difficulty: Difficulty::Medium },
        16 => Seed { puzzle: MEDIUM_6_PUZZLE, solution: MEDIUM_6_SOLUTION, difficulty: Difficulty::Medium },
        17 => Seed { puzzle: MEDIUM_7_PUZZLE, solution: MEDIUM_7_SOLUTION, difficulty: Difficulty::Medium },
        18 => Seed { puzzle: MEDIUM_8_PUZZLE, solution: MEDIUM_8_SOLUTION, difficulty: Difficulty::Medium },
        19 => Seed { puzzle: MEDIUM_9_PUZZLE, solution: MEDIUM_9_SOLUTION, difficulty: Difficulty::Medium },
        20 => Seed { puzzle: HARD_0_PUZZLE, solution: HARD_0_SOLUTION, difficulty: Difficulty::Hard },
        21 => Seed { puzzle: HARD_1_PUZZLE, solution: HARD_1_SOLUTION, difficulty: Difficulty::Hard },
        22 => Seed { puzzle: HARD_2_PUZZLE, solution: HARD_2_SOLUTION, difficulty: Difficulty::Hard },
        23 => Seed { puzzle: HARD_3_PUZZLE, solution: HARD_3_SOLUTION, difficulty: Difficulty::Hard },
        24 => Seed { puzzle: HARD_4_PUZZLE, solution: HARD_4_SOLUTION, difficulty: Difficulty::Hard },
        25 => Seed { puzzle: HARD_5_PUZZLE, solution: HARD_5_SOLUTION, difficulty: Difficulty::Hard },
        26 => Seed { puzzle: HARD_6_PUZZLE, solution: HARD_6_SOLUTION, difficulty: Difficulty::Hard },
        27 => Seed { puzzle: HARD_7_PUZZLE, solution: HARD_7_SOLUTION, difficulty: Difficulty::Hard },
        28 => Seed { puzzle: HARD_8_PUZZLE, solution: HARD_8_SOLUTION, difficulty: Difficulty::Hard },
        29 => Seed { puzzle: HARD_9_PUZZLE, solution: HARD_9_SOLUTION, difficulty: Difficulty::Hard },
        30 => Seed { puzzle: EXPERT_0_PUZZLE, solution: EXPERT_0_SOLUTION, difficulty: Difficulty::Expert },
        31 => Seed { puzzle: EXPERT_1_PUZZLE, solution: EXPERT_1_SOLUTION, difficulty: Difficulty::Expert },
        32 => Seed { puzzle: EXPERT_2_PUZZLE, solution: EXPERT_2_SOLUTION, difficulty: Difficulty::Expert },
        33 => Seed { puzzle: EXPERT_3_PUZZLE, solution: EXPERT_3_SOLUTION, difficulty: Difficulty::Expert },
        34 => Seed { puzzle: EXPERT_4_PUZZLE, solution: EXPERT_4_SOLUTION, difficulty: Difficulty::Expert },
        35 => Seed { puzzle: EXPERT_5_PUZZLE, solution: EXPERT_5_SOLUTION, difficulty: Difficulty::Expert },
        36 => Seed { puzzle: EXPERT_6_PUZZLE, solution: EXPERT_6_SOLUTION, difficulty: Difficulty::Expert },
        37 => Seed { puzzle: EXPERT_7_PUZZLE, solution: EXPERT_7_SOLUTION, difficulty: Difficulty::Expert },
        38 => Seed { puzzle: EXPERT_8_PUZZLE, solution: EXPERT_8_SOLUTION, difficulty: Difficulty::Expert },
        _ => Seed { puzzle: EXPERT_9_PUZZLE, solution: EXPERT_9_SOLUTION, difficulty: Difficulty::Expert },
    }
}

proof fn lemma_seed_0_passes()
    ensures
        passes_checks(seed(0)),
{
    reveal_strlit("g--d--caf---g----ii-f--hg-bb-iaedhgc--afcg--d-g-b-----f-d--abc---b------c--h-bfia");
    reveal_strlit("gbhdiecafacegbfdhiidfcahgebbfiaedhgcehafcgibddgcbhiafefidegabchhabifcedgceghdbfia");
    reveal_with_fuel(cells_agree_from, 82);
    reveal_with_fuel(differs_from_rest, 10);
    reveal_with_fuel(unit_distinct_from, 10);
    reveal_with_fuel(units_distinct_from, 28);
}

proof fn lemma_seed_1_passes()
    ensures
        passes_checks(seed(1)),
{
    reveal_strlit("bf-hiac-g-gi------a-hf-g---g-a-fi--ddef---i-b--b-a-g-ff---gbh--hac---------e-cfd-");
    reveal_strlit("bfdhiacegegicbdafhachfegdbighabfiecddefgchiabcibdaeghffdeagbhichacidfbgeibgehcfda");
    reveal_with_fuel(cells_agree_from, 82);
    reveal_with_fuel(differs_from_rest, 10);
    reveal_with_fuel(unit_distinct_from, 10);
    reveal_with_fuel(units_distinct_from, 28);
}

proof fn lemma_seed_2_passes()
    ensures
        passes_checks(seed(2)),
{
    reveal_strlit("hgad-e--b-cbf-ge---df-aih-----i-------d-ecai-g---fa----igadf----fe-i-----h-eg-fd-");
    reveal_strlit("hgadceifbicbfhgeadedfbaihcgcahibdgeffbdgecaihgeihfadbcbigadfchedfecihbgaahcegbfdi");
    reveal_with_fuel(cells_agree_from, 82);
    reveal_with_fuel(differs_from_rest, 10);
    reveal_with_fuel(unit_distinct_from, 10);
    reveal_with_fuel(units_distinct_from, 28);
}

proof fn lemma_seed_3_passes()
    ensures
        passes_checks(seed(3)),
{
    reveal_strlit("-fbe-c----e-----a---g-ihb--gb-fhdc-eid-g-eahbch-----f-----ef-ga-g----e-i--hi-----");
    reveal_strlit("afbegcidhheidfbgacdcgaihbefgbafhdcieidfgceahbchebaidfgbidcefhgafgchdaebieahibgfcd");
    reveal_with_fuel(cells_agree_from, 82);
    reveal_with_fuel(differs_from_rest, 10);
    reveal_with_fuel(unit_distinct_from, 10);
    reveal_with_fuel(units_distinct_from, 28);
}

proof fn lemma_seed_4_passes()
    ensures
        passes_checks(seed(4)),
{
    reveal_strlit("c--d-fgeb---g--i-hg-ih--da-a-g-b-cde-edc--a--b--------i-e-cd-ha-fb-h-e-ch--e-----");
    reveal_strlit("cahdifgebedfgabichgbihecdafahgfbicdefedcghabibicadehfgigebcdfhadfbihaegchcaefgbid");
    reveal_with_fuel(cells_agree_from, 82);
    reveal_with_fuel(differs_from_rest, 10);
    reveal_with_fuel(unit_distinct_from, 10);
    reveal_with_fuel(units_distinct_from, 28);
}

proof fn lemma_seed_5_passes()
    ensures
        passes_checks(seed(5)),
{
    reveal_strlit("bi---ec--eg--h-fbdf--------i-hba-dfe----ehbig--bf-d-h--f-e-a-c-----g-e--cde--f--a");
    reveal_strlit("bidgfecahegcahifbdfhadcbgeiichbagdfedafcehbiggebfidahchfgedaicbabihgcedfcdeibfhga");
    reveal_with_fuel(cells_agree_from, 82);
    reveal_with_fuel(differs_from_rest, 10);
    reveal_with_fuel(unit_distinct_from, 10);
    reveal_with_fuel(units_distinct_from, 28);
}

proof fn lemma_seed_6_passes()
    ensures
        passes_checks(seed(6)),
{
    reveal_strlit("-----ef-ha--bf--ecfe-gc---a----gbch--a--df-b--bi----f-h-af-gidbdf----g--i--c--ha-");
    reveal_strlit("bicdaefghahgbfidecfedgchbiaedfagbchicahidfebggbiehcafdhcafegidbdfbhiagceigecbdhaf");
    reveal_with_fuel(cells_agree_from, 82);
    reveal_with_fuel(differs_from_rest, 10);
    reveal_with_fuel(unit_distinct_from, 10);
    reveal_with_fuel(units_distinct_from, 28);
}

proof fn lemma_seed_7_passes()
    ensures
        passes_checks(seed(7)),
{
    reveal_strlit("--fg--hec-ebc-------h-dfgabb--h-a-fg-g-df-i--f-a---b--hf----ad---if----hc-ea---bi");
    reveal_strlit("dafgbihecgebcahdifichedfgabbidhcaefgegcdfbihafhaigebcdhfgbicadeabifedcghcdeahgfbi");
    reveal_with_fuel(cells_agree_from, 82);
    reveal_with_fuel(differs_from_rest, 10);
    reveal_with_fuel(unit_distinct_from, 10);
    reveal_with_fuel(units_distinct_from, 28);
}

proof fn lemma_seed_8_passes()
    ensures
        passes_checks(seed(8)),
{
    reveal_strlit("-----b-f-e-aih----bi----a----e---i---g-bf--a-----cihg-ic-fdhg-a--h---f-cgef-iad-b");
    reveal_strlit("dhcgabefiefaihcbdgbigdefachcaehgdibfhgibfecadfbdacihgeicbfdhgeaadhebgficgefciadhb");
    reveal_with_fuel(cells_agree_from, 82);
    reveal_with_fuel(differs_from_rest, 10);
    reveal_with_fuel(unit_distinct_from, 10);
    reveal_with_fuel(units_distinct_from, 28);
}

proof fn lemma_seed_9_passes()
    ensures
        passes_checks(seed(9)),
{
    reveal_strlit("e--f-b-------eid-f--h----b-ge-c-fadhab-ihgfe-hc--d----d-g---cf---eg--h-bf---i----");
    reveal_strlit("edcfgbihabgaheidcfifhdcaebggeicbfadhabdihgfechcfadebgidigbahcfecaegfdhibfhbeicgad");
    reveal_with_fuel(cells_agree_from, 82);
    reveal_with_fuel(differs_from_rest, 10);
    reveal_with_fuel(unit_distinct_from, 10);
    reveal_with_fuel(units_distinct_from, 28);
}

proof fn lemma_seed_10_passes()
    ensures
        passes_checks(seed(10)),
{
    reveal_strlit("g-hedcf---i-f--a--e--a-----c--i-deh-i-------g--g--e---a----f--c-cf-e-gi-b-------e");
    reveal_strlit("gahedcfbidicfbgaehefbaihcgdcbaigdehfihebfadcgfdghceiabaeighfbdchcfdebgiabgdcaihfe");
    reveal_with_fuel(cells_agree_from, 82);
    reveal_with_fuel(differs_from_rest, 10);
    reveal_with_fuel(unit_distinct_from, 10);
    reveal_with_fuel(units_distinct_from, 28);
}

proof fn lemma_seed_11_passes()
    ensures
        passes_checks(seed(11)),
{
    reveal_strlit("-di--ac---b-cid-h---h--b-d-----f----h-d----fca---c-i--d----i-e-bh---cd-g-g---fac-");
    reveal_strlit("fdighacbeebgcidfhacahfebgdigecifhbadhidabgefcafbdceighdcabgihefbhfeacdigigehdfacb");
    reveal_with_fuel(cells_agree_from, 82);
    reveal_with_fuel(differs_from_rest, 10);
    reveal_with_fuel(unit_distinct_from, 10);
    reveal_with_fuel(units_distinct_from, 28);
}

proof fn lemma_seed_12_passes()
    ensures
        passes_checks(seed(12)),
{
    reveal_strlit("--ac-i------ah-d---e----i---a-e-bc----g--f--ad---gae--ig-fa------hd-e-g-c-d-b----");
    reveal_strlit("hdaceigfbbifahgdcegecbfdiahfaiedbchgehgicfbdadcbhgaeifigefachbdabhdiefgccfdgbhaei");
    reveal_with_fuel(cells_agree_from, 82);
    reveal_with_fuel(differs_from_rest, 10);
    reveal_with_fuel(unit_distinct_from, 10);
    reveal_with_fuel(units_distinct_from, 28);
}

proof fn lemma_seed_13_passes()
    ensures
        passes_checks(seed(13)),
{
    reveal_strlit("fg----i---h--f-e--e-bd--afh-f--hg--ic------b----f-c-----c-------eiac-gdf-b-----e-");
    reveal_strlit("fgaebhicdihdcfaegbecbdgiafhdfebhgcaicahidefbgbigfacdhegdchefbiaheiacbgdfabfgidhec");
    reveal_with_fuel(cells_agree_from, 82);
    reveal_with_fuel(differs_from_rest, 10);
    reveal_with_fuel(unit_distinct_from, 10);
    reveal_with_fuel(units_distinct_from, 28);
}

proof fn lemma_seed_14_passes()
    ensures
        passes_checks(seed(14)),
{
    reveal_strlit("--d-g-fi---e-ci-d-a----eg-----i---f---bg--ec-e--d--haig----f----ha--------ch-g-e-");
    reveal_strlit("cbdaghfiehgefciadbaifbdeghcdahiecbfgifbghaecdecgdfbhaigeicafdbhbhaeidcgffdchbgiea");
    reveal_with_fuel(cells_agree_from, 82);
    reveal_with_fuel(differs_from_rest, 10);
    reveal_with_fuel(unit_distinct_from, 10);
    reveal_with_fuel(units_distinct_from, 28);
}

proof fn lemma_seed_15_passes()
    ensures
        passes_checks(seed(15)),
{
    reveal_strlit("----d-a---a-ie---di------h-d-e--cg-b-b-e--i----c-i--dh--h-gf--c------b-g--i-ce-a-");
    reveal_strlit("ehfcdgabicabiehfgdigdfbachediehacgfbhbgefdicaafcgibedhbehagfdicfcadhibeggdibcehaf");
    reveal_with_fuel(cells_agree_from, 82);
    reveal_with_fuel(differs_from_rest, 10);
    reveal_with_fuel(unit_distinct_from, 10);
    reveal_with_fuel(units_distinct_from, 28);
}

proof fn lemma_seed_16_passes()
    ensures
        passes_checks(seed(16)),
{
    reveal_strlit("---cfa-ibf---i-------g---f--i--h-cd-gdf--------cd--fb-------bc--gb---dhi---he--g-");
    reveal_strlit("dhecfagibfbgeidhaccaigbhefdbiafhecdggdfbaciehhecdgifbaafhidgbceegbacfdhiicdhebagf");
    reveal_with_fuel(cells_agree_from, 82);
    reveal_with_fuel(differs_from_rest, 10);
    reveal_with_fuel(unit_distinct_from, 10);
    reveal_with_fuel(units_distinct_from, 28);
}

proof fn lemma_seed_17_passes()
    ensures
        passes_checks(seed(17)),
{
    reveal_strlit("a------g-b--di-a-f--e--ahi----a------bae--------ichbaei---de------c-igd-d-h----ci");
    reveal_strlit("aidhefcgbbhgdicaeffcebgahidheiabgdfccbaefdihggdfichbaeiacgdefbhefbchigdadghfabeci");
    reveal_with_fuel(cells_agree_from, 82);
    reveal_with_fuel(differs_from_rest, 10);
    reveal_with_fuel(unit_distinct_from, 10);
    reveal_with_fuel(units_distinct_from, 28);
}

proof fn lemma_seed_18_passes()
    ensures
        passes_checks(seed(18)),
{
    reveal_strlit("----g-------ci--bg-i-de-af-------beh-----fgdi---eb-f----ah--ig---hg-d---cd--a----");
    reveal_strlit("hacfgbdieefdciahbggibdehafcagfidcbehbceahfgdidhiebgfcafbahceigdiehgfdcabcdgbaiehf");
    reveal_with_fuel(cells_agree_from, 82);
    reveal_with_fuel(differs_from_rest, 10);
    reveal_with_fuel(unit_distinct_from, 10);
    reveal_with_fuel(units_distinct_from, 28);
}

proof fn lemma_seed_19_passes()
    ensures
        passes_checks(seed(19)),
{
    reveal_strlit("gfbc---dh-a-------d--a--fi--daifc--ech------f-------c-f---e--b---d-----i--igh-d--");
    reveal_strlit("gfbcieadhiahbdfcegdceaghfibbdaifcghechgebdiafeifhagbcdfgcdeihbahbdfcaegiaeighbdfc");
    reveal_with_fuel(cells_agree_from, 82);
    reveal_with_fuel(differs_from_rest, 10);
    reveal_with_fuel(unit_distinct_from, 10);
    reveal_with_fuel(units_distinct_from, 28);
}

proof fn lemma_seed_20_passes()
    ensures
        passes_checks(seed(20)),
{
    reveal_strlit("-e-fh--a-g----ed---a--b-f---ih----dc--------a----g----b---i---dhc-gf-----g------e");
    reveal_strlit("debfhciagghfiaedcbcaidbgfehaihbefgdcfbgcdiehaedchgabifbfaeihcgdhcegfdabiigdacbhfe");
    reveal_with_fuel(cells_agree_from, 82);
    reveal_with_fuel(differs_from_rest, 10);
    reveal_with_fuel(unit_distinct_from, 10);
    reveal_with_fuel(units_distinct_from, 28);
}

proof fn lemma_seed_21_passes()
    ensures
        passes_checks(seed(21)),
{
    reveal_strlit("----i-b---fc--a-h-eb----i-fcieg--ad---hd-e----d--a----f---b-e-i-------b--h--e----");
    reveal_strlit("hageifbcdifcbdagheebdchgiafciegfbadhaghdcefibbdfiahcegfcahbdegideifgchbaghbaeidfc");
    reveal_with_fuel(cells_agree_from, 82);
    reveal_with_fuel(differs_from_rest, 10);
    reveal_with_fuel(unit_distinct_from, 10);
    reveal_with_fuel(units_distinct_from, 28);
}

proof fn lemma_seed_22_passes()
    ensures
        passes_checks(seed(22)),
{
    reveal_strlit("-------hg-----h-d-a-g---ei--ce--dg--dbf---------bfid--hg---f----d--h---c--a-eg---");
    reveal_strlit("bedfiachgficeghbdaahgdbceificehadgfbdbfgceiahgahbfidcehgbcdfaeiediahbfgccfaieghbd");
    reveal_with_fuel(cells_agree_from, 82);
    reveal_with_fuel(differs_from_rest, 10);
    reveal_with_fuel(unit_distinct_from, 10);
    reveal_with_fuel(units_distinct_from, 28);
}

proof fn lemma_seed_23_passes()
    ensures
        passes_checks(seed(23)),
{
    reveal_strlit("h---f------------i--e---a-h-dhe---a---fh-b----i--c---gf-ga-di--a-i---d-bce------a");
    reveal_strlit("hgcifabdedabgehfciifebdcaghbdheigcafgcfhabeideiadcfhbgfbgahdiecahicgedfbcedfbigha");
    reveal_with_fuel(cells_agree_from, 82);
    reveal_with_fuel(differs_from_rest, 10);
    reveal_with_fuel(unit_distinct_from, 10);
    reveal_with_fuel(units_distinct_from, 28);
}

proof fn lemma_seed_24_passes()
    ensures
        passes_checks(seed(24)),
{
    reveal_strlit("f----dha----b------a------dic---h------c--egb-----------a-----ed--f-ec-g-fg------");
    reveal_strlit("febigdhachdcbfageigaiehcbfdicegbhadfahfcdiegbbgdaefichcbadigfhedihfaecbgefghcbdia");
    reveal_with_fuel(cells_agree_from, 82);
    reveal_with_fuel(differs_from_rest, 10);
    reveal_with_fuel(unit_distinct_from, 10);
    reveal_with_fuel(units_distinct_from, 28);
}

proof fn lemma_seed_25_passes()
    ensures
        passes_checks(seed(25)),
{
    reveal_strlit("c-a---i---b--c--ede----g--c-e---dga--c---b--i--gf-----b-----ei------a-cg--ie----a");
    reveal_strlit("cfahdeigbgbhacifedeidbfgahchebcidgafacfgebhdiidgfahcbebacdgfeihfheibadcgdgiehcbfa");
    reveal_with_fuel(cells_agree_from, 82);
    reveal_with_fuel(differs_from_rest, 10);
    reveal_with_fuel(unit_distinct_from, 10);
    reveal_with_fuel(units_distinct_from, 28);
}

proof fn lemma_seed_26_passes()
    ensures
        passes_checks(seed(26)),
{
    reveal_strlit("--a-i---cc-g-------h--e--a--a---ib---d--f--h-----------i---d-f------g-c-dg---b--h");
    reveal_strlit("beagifhdccfghdaibeihdbecfaghafcgibedgdbafechiecidbhagfaihecdgfbfbeihgdcadgcfabeih");
    reveal_with_fuel(cells_agree_from, 82);
    reveal_with_fuel(differs_from_rest, 10);
    reveal_with_fuel(unit_distinct_from, 10);
    reveal_with_fuel(units_distinct_from, 28);
}

proof fn lemma_seed_27_passes()
    ensures
        passes_checks(seed(27)),
{
    reveal_strlit("i--f--ec------a-fbg-b-i---h-d---ihg-----b---fe---a------d-----i---ie-b-------g---");
    reveal_strlit("iahfdbecgdcehgaifbgfbeicdahbdacfihgechgdbeaifeifgahcbdhbdacfgeifgciedbhaaeibhgfdc");
    reveal_with_fuel(cells_agree_from, 82);
    reveal_with_fuel(differs_from_rest, 10);
    reveal_with_fuel(unit_distinct_from, 10);
    reveal_with_fuel(units_distinct_from, 28);
}

proof fn lemma_seed_28_passes()
    ensures
        passes_checks(seed(28)),
{
    reveal_strlit("--e---c------i--g-------d-hbaf--------cfhe--ie------f-h-d-c-----f-h----c---i-ga--");
    reveal_strlit("fdegbhciaacheidfgbibgcfadehbafdgihcedgcfhebaiehibacgfdhidacfebggfahebidccebidgahf");
    reveal_with_fuel(cells_agree_from, 82);
    reveal_with_fuel(differs_from_rest, 10);
    reveal_with_fuel(unit_distinct_from, 10);
    reveal_with_fuel(units_distinct_from, 28);
}

proof fn lemma_seed_29_passes()
    ensures
        passes_checks(seed(29)),
{
    reveal_strlit("--f-d-i---g--b-a-d--c-a-----c-i---e---eh--g---------ac---------b---i-e----gf--d--");
    reveal_strlit("abfcdhigehgiebfacddecgaibhfgcdifahebfaehcbgdiihbdegfacefabgdcihbdhaicefgcigfhedba");
    reveal_with_fuel(cells_agree_from, 82);
    reveal_with_fuel(differs_from_rest, 10);
    reveal_with_fuel(unit_distinct_from, 10);
    reveal_with_fuel(units_distinct_from, 28);
}

proof fn lemma_seed_30_passes()
    ensures
        passes_checks(seed(30)),
{
    reveal_strlit("-ica------------bh----g--f--g---a---i-e----c-a---f------d--bg------c---e-fg----id");
    reveal_strlit("ficabhdeggeaidfcbhdhbegcifabgfceahdiidebhgacfachdfiegbeadfibghchbigcdfaecfghaebid");
    reveal_with_fuel(cells_agree_from, 82);
    reveal_with_fuel(differs_from_rest, 10);
    reveal_with_fuel(unit_distinct_from, 10);
    reveal_with_fuel(units_distinct_from, 28);
}

proof fn lemma_seed_31_passes()
    ensures
        passes_checks(seed(31)),
{
    reveal_strlit("-h-i------i---------f--bh--b---a--ed-ca------i--f---h--------c----he--f-ab--df---");
    reveal_strlit("ehbicdgafdigafhcbecafegbhdibghcaifedfcadheigbiedfbgahchfebiadcggdihecbfaabcgdfeih");
    reveal_with_fuel(cells_agree_from, 82);
    reveal_with_fuel(differs_from_rest, 10);
    reveal_with_fuel(unit_distinct_from, 10);
    reveal_with_fuel(units_distinct_from, 28);
}

proof fn lemma_seed_32_passes()
    ensures
        passes_checks(seed(32)),
{
    reveal_strlit("-h--c-f-ice-------b--ia--------g-h------e---ff--h---i----b---eh----------ga--f--c");
    reveal_strlit("ahgdcefbiceigfbahdbfdiahcgediefgchabgbhaeidcffachbdeigicfbdagehedbchgifahgaeifbdc");
    reveal_with_fuel(cells_agree_from, 82);
    reveal_with_fuel(differs_from_rest, 10);
    reveal_with_fuel(unit_distinct_from, 10);
    reveal_with_fuel(units_distinct_from, 28);
}

proof fn lemma_seed_33_passes()
    ensures
        passes_checks(seed(33)),
{
    reveal_strlit("a----db---g-c----f--e-f--i---------i----h-f-d--g---ch---b--e-c-ca------h-d-------");
    reveal_strlit("afchidbegigdcebhafhbegfadicfehdgcabibcaehifgddigbafcheghbfdeicacafibgedhediachgfb");
    reveal_with_fuel(cells_agree_from, 82);
    reveal_with_fuel(differs_from_rest, 10);
    reveal_with_fuel(unit_distinct_from, 10);
    reveal_with_fuel(units_distinct_from, 28);
}

proof fn lemma_seed_34_passes()
    ensures
        passes_checks(seed(34)),
{
    reveal_strlit("------c--g-b--a---------g-h---e----gb--id-----i-f---eb----i---c-he-f-d--a------h-");
    reveal_strlit("edhbgicfagfbchaeidicadefgbhhafebcidgbegidhacfdicfaghebfgdhiebaccheafbdgiabigcdfhe");
    reveal_with_fuel(cells_agree_from, 82);
    reveal_with_fuel(differs_from_rest, 10);
    reveal_with_fuel(unit_distinct_from, 10);
    reveal_with_fuel(units_distinct_from, 28);
}

proof fn lemma_seed_35_passes()
    ensures
        passes_checks(seed(35)),
{
    reveal_strlit("---bf-i-------hc-aa----------g------h--c-e----i----bh----f---g--f-----e---hig-a--");
    reveal_strlit("chebfaidgfgdeihcbaabidcgefhbeghdifachafcbegiddicgafbheicafedhgbgfbahcdeiedhigbacf");
    reveal_with_fuel(cells_agree_from, 82);
    reveal_with_fuel(differs_from_rest, 10);
    reveal_with_fuel(unit_distinct_from, 10);
    reveal_with_fuel(units_distinct_from, 28);
}

proof fn lemma_seed_36_passes()
    ensures
        passes_checks(seed(36)),
{
    reveal_strlit("--c-----d---g-i--h-i----b--ace------d--bh----b--f---------e---------bea--d--a--c-");
    reveal_strlit("gecabhifdfbagdicehhidefcbgaaceigdhbfdgfbheaicbhifcagdeiagcefdhbcfhdibeagedbhagfci");
    reveal_with_fuel(cells_agree_from, 82);
    reveal_with_fuel(differs_from_rest, 10);
    reveal_with_fuel(unit_distinct_from, 10);
    reveal_with_fuel(units_distinct_from, 28);
}

proof fn lemma_seed_37_passes()
    ensures
        passes_checks(seed(37)),
{
    reveal_strlit("-----d-h--h-----a-gb------i-----a--g----eh-c--i--d-----ge---a--d----f-----ab--i--");
    reveal_strlit("iacefdghbehdgibcafgbfhacedicehfbadigfdgiehbcaaibcdgfehbgedhiafcdciagfhbehfabceigd");
    reveal_with_fuel(cells_agree_from, 82);
    reveal_with_fuel(differs_from_rest, 10);
    reveal_with_fuel(unit_distinct_from, 10);
    reveal_with_fuel(units_distinct_from, 28);
}

proof fn lemma_seed_38_passes()
    ensures
        passes_checks(seed(38)),
{
    reveal_strlit("-bi-------c----e---------af---eba-----a-i-g------c--i----h-e--d-e------gc-b--f---");
    reveal_strlit("fbiaegdhcachdfbegiedgchibafgicebafdhbhafidgcedfegchaibiafhgecbdhedbacifgcgbidfhea");
    reveal_with_fuel(cells_agree_from, 82);
    reveal_with_fuel(differs_from_rest, 10);
    reveal_with_fuel(unit_distinct_from, 10);
    reveal_with_fuel(units_distinct_from, 28);
}

proof fn lemma_seed_39_passes()
    ensures
        passes_checks(seed(39)),
{
    reveal_strlit("---i--h-bc----b----g----a----gd-----e--h-f------b---ac-c------ha-----id--i--gd---");
    reveal_strlit("deficahgbchagfbdeibgiedhacffagdicbheebchafgididhbegfacgcdabiefhafbcheidghiefgdcba");
    reveal_with_fuel(cells_agree_from, 82);
    reveal_with_fuel(differs_from_rest, 10);
    reveal_with_fuel(unit_distinct_from, 10);
    reveal_with_fuel(units_distinct_from, 28);
}

/// The easy seeds pass the checks.
pub proof fn lemma_easy_seeds_pass()
    ensures
        passes_checks(seed(0)),
        passes_checks(seed(1)),
        passes_checks(seed(2)),
        passes_checks(seed(3)),
        passes_checks(seed(4)),
        passes_checks(seed(5)),
        passes_checks(seed(6)),
        passes_checks(seed(7)),
        passes_checks(seed(8)),
        passes_checks(seed(9)),
{
    lemma_seed_0_passes();
    lemma_seed_1_passes();
    lemma_seed_2_passes();
    lemma_seed_3_passes();
    lemma_seed_4_passes();
    lemma_seed_5_passes();
    lemma_seed_6_passes();
    lemma_seed_7_passes();
    lemma_seed_8_passes();
    lemma_seed_9_passes();
}

/// The medium seeds pass the checks.
pub proof fn lemma_medium_seeds_pass()
    ensures
        passes_checks(seed(10)),
        passes_checks(seed(11)),
        passes_checks(seed(12)),
        passes_checks(seed(13)),
        passes_checks(seed(14)),
        passes_checks(seed(15)),
        passes_checks(seed(16)),
        passes_checks(seed(17)),
        passes_checks(seed(18)),
        passes_checks(seed(19)),
{
    lemma_seed_10_passes();
    lemma_seed_11_passes();
    lemma_seed_12_passes();
    lemma_seed_13_passes();
    lemma_seed_14_passes();
    lemma_seed_15_passes();
    lemma_seed_16_passes();
    lemma_seed_17_passes();
    lemma_seed_18_passes();
    lemma_seed_19_passes();
}

/// The hard seeds pass the checks.
pub proof fn lemma_hard_seeds_pass()
    ensures
        passes_checks(seed(20)),
        passes_checks(seed(21)),
        passes_checks(seed(22)),
        passes_checks(seed(23)),
        passes_checks(seed(24)),
        passes_checks(seed(25)),
        passes_checks(seed(26)),
        passes_checks(seed(27)),
        passes_checks(seed(28)),
        passes_checks(seed(29)),
{
    lemma_seed_20_passes();
    lemma_seed_21_passes();
    lemma_seed_22_passes();
    lemma_seed_23_passes();
    lemma_seed_24_passes();
    lemma_seed_25_passes();
    lemma_seed_26_passes();
    lemma_seed_27_passes();
    lemma_seed_28_passes();
    lemma_seed_29_passes();
}

/// The expert seeds pass the checks.
pub proof fn lemma_expert_seeds_pass()
    ensures
        passes_checks(seed(30)),
        passes_checks(seed(31)),
        passes_checks(seed(32)),
        passes_checks(seed(33)),
        passes_checks(seed(34)),
        passes_checks(seed(35)),
        passes_checks(seed(36)),
        passes_checks(seed(37)),
        passes_checks(seed(38)),
        passes_checks(seed(39)),
{
    lemma_seed_30_passes();
    lemma_seed_31_passes();
    lemma_seed_32_passes();
    lemma_seed_33_passes();
    lemma_seed_34_passes();
    lemma_seed_35_passes();
    lemma_seed_36_passes();
    lemma_seed_37_passes();
    lemma_seed_38_passes();
    lemma_seed_39_passes();
}

} // verus!
