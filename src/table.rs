//! The table of step sizes and the points each achieves per second of burst.
use vstd::prelude::*;

verus! {

/// Millionths of a point in one point.
pub const POINTS_SCALE: u64 = 1_000_000;

/// One row of a step-size table.
#[derive(Clone, Copy, Debug, PartialEq, Eq, Structural)]
pub struct StepEntry {
    /// Integration step size, in nanoseconds.
    pub step_ns: u64,
    /// Achievable points per second of burst, in millionths of a point.
    pub points: u64,
}

/// A sequence of rows is a valid table when it is not empty, every step and
/// every points value is positive, steps strictly increase and points
/// strictly decrease along it.
pub open spec fn table_ordered(s: Seq<StepEntry>) -> bool {
    &&& s.len() >= 1
    &&& forall|i: int| 0 <= i < s.len() ==> #[trigger] s[i].step_ns > 0 && s[i].points > 0
    &&& forall|i: int, j: int|
        0 <= i < j < s.len() ==> #[trigger] s[i].step_ns < #[trigger] s[j].step_ns && s[i].points
            > s[j].points
}

/// Appending a row with a larger step and fewer points keeps a table ordered.
proof fn lemma_push_ordered(s: Seq<StepEntry>, e: StepEntry)
    requires
        table_ordered(s),
        s.last().step_ns < e.step_ns,
        s.last().points > e.points,
        e.points > 0,
    ensures
        table_ordered(s.push(e)),
{
    let t = s.push(e);
    assert forall|i: int| 0 <= i < t.len() implies #[trigger] t[i].step_ns > 0 && t[i].points
        > 0 by {
        if i < s.len() {
            assert(s[i].step_ns > 0);
        } else {
            assert(s[s.len() - 1].step_ns > 0);
        }
    }
    assert forall|i: int, j: int| 0 <= i < j < t.len() implies t[i].step_ns < t[j].step_ns
        && t[i].points > t[j].points by {
        if j == s.len() && i < s.len() - 1 {
            assert(s[i].step_ns < s[s.len() - 1].step_ns);
        }
    }
}

/// A step-size table: rows ordered by step size, ascending, with strictly
/// decreasing achievable points.
#[derive(Debug)]
pub struct StepSizeTable {
    entries: Vec<StepEntry>,
}

impl View for StepSizeTable {
    type V = Seq<StepEntry>;

    closed spec fn view(&self) -> Seq<StepEntry> {
        self.entries@
    }
}

impl StepSizeTable {
    pub open spec fn wf(&self) -> bool {
        table_ordered(self@)
    }

    /// Builds a table from rows, or `None` when the rows do not form an
    /// ordered table.
    pub fn from_entries(entries: Vec<StepEntry>) -> (r: Option<StepSizeTable>)
        ensures
            r is Some <==> table_ordered(entries@),
            r matches Some(t) ==> t@ == entries@ && t.wf(),
    {
        let n = entries.len();
        if n == 0 {
            return None;
        }
        let mut i: usize = 1;
        if entries[0].step_ns == 0 || entries[0].points == 0 {
            proof {
                assert(!(entries@[0].step_ns > 0 && entries@[0].points > 0));
            }
            return None;
        }
        proof {
            assert(entries@.subrange(0, 1)[0] == entries@[0]);
        }
        while i < n
            invariant
                1 <= i <= n,
                n == entries@.len(),
                table_ordered(entries@.subrange(0, i as int)),
            decreases n - i,
        {
            let prev = entries[i - 1];
            let cur = entries[i];
            if !(prev.step_ns < cur.step_ns && prev.points > cur.points && cur.points > 0) {
                proof {
                    assert(!(entries@[i - 1 as int].step_ns < entries@[i as int].step_ns
                        && entries@[i - 1 as int].points > entries@[i as int].points
                        && entries@[i as int].points > 0));
                }
                return None;
            }
            proof {
                let s = entries@.subrange(0, i as int);
                lemma_push_ordered(s, cur);
                assert(s.push(cur) =~= entries@.subrange(0, i + 1));
            }
            i = i + 1;
        }
        proof {
            assert(entries@.subrange(0, n as int) =~= entries@);
        }
        Some(StepSizeTable { entries })
    }

    pub fn len(&self) -> (r: usize)
        ensures
            r == self@.len(),
    {
        self.entries.len()
    }

    pub fn entry(&self, i: usize) -> (r: StepEntry)
        requires
            i < self@.len(),
        ensures
            r == self@[i as int],
    {
        self.entries[i]
    }
}

/// The rows of the measured table of the Hindmarsh-Rose model, from a 0.5 ms
/// step achieving 577638 points per second of burst to a 100 ms step
/// achieving 2829.684659.
pub open spec fn standard_rows() -> Seq<StepEntry> {
    Seq::empty()
        .push(StepEntry { step_ns: 500_000, points: 577_638_000_000 })
        .push(StepEntry { step_ns: 600_000, points: 481_366_000_000 })
        .push(StepEntry { step_ns: 700_000, points: 412_599_000_000 })
        .push(StepEntry { step_ns: 800_000, points: 357_615_500_000 })
        .push(StepEntry { step_ns: 900_000, points: 317_880_000_000 })
        .push(StepEntry { step_ns: 1_000_000, points: 286_092_500_000 })
        .push(StepEntry { step_ns: 1_100_000, points: 259_143_333_333 })
        .push(StepEntry { step_ns: 1_200_000, points: 237_548_000_000 })
        .push(StepEntry { step_ns: 1_300_000, points: 218_869_500_000 })
        .push(StepEntry { step_ns: 1_400_000, points: 203_236_000_000 })
        .push(StepEntry { step_ns: 1_500_000, points: 189_687_000_000 })
        .push(StepEntry { step_ns: 1_600_000, points: 177_634_000_000 })
        .push(StepEntry { step_ns: 1_800_000, points: 157_897_000_000 })
        .push(StepEntry { step_ns: 2_000_000, points: 142_001_833_333 })
        .push(StepEntry { step_ns: 2_200_000, points: 129_024_142_857 })
        .push(StepEntry { step_ns: 2_500_000, points: 113_496_125_000 })
        .push(StepEntry { step_ns: 2_800_000, points: 101_304_555_556 })
        .push(StepEntry { step_ns: 2_900_000, points: 97_811_222_222 })
        .push(StepEntry { step_ns: 3_000_000, points: 94_527_400_000 })
        .push(StepEntry { step_ns: 3_100_000, points: 91_478_200_000 })
        .push(StepEntry { step_ns: 3_200_000, points: 88_619_400_000 })
        .push(StepEntry { step_ns: 3_300_000, points: 85_916_636_364 })
        .push(StepEntry { step_ns: 3_400_000, points: 83_389_636_364 })
        .push(StepEntry { step_ns: 3_500_000, points: 81_007_090_909 })
        .push(StepEntry { step_ns: 3_600_000, points: 78_743_583_333 })
        .push(StepEntry { step_ns: 3_700_000, points: 76_615_416_667 })
        .push(StepEntry { step_ns: 3_800_000, points: 74_599_250_000 })
        .push(StepEntry { step_ns: 3_900_000, points: 72_676_000_000 })
        .push(StepEntry { step_ns: 4_000_000, points: 70_859_076_923 })
        .push(StepEntry { step_ns: 4_100_000, points: 69_130_846_154 })
        .push(StepEntry { step_ns: 4_200_000, points: 67_476_642_857 })
        .push(StepEntry { step_ns: 4_300_000, points: 65_907_357_143 })
        .push(StepEntry { step_ns: 4_400_000, points: 64_402_666_667 })
        .push(StepEntry { step_ns: 4_500_000, points: 62_971_466_667 })
        .push(StepEntry { step_ns: 4_600_000, points: 61_602_533_333 })
        .push(StepEntry { step_ns: 4_700_000, points: 60_286_187_500 })
        .push(StepEntry { step_ns: 4_800_000, points: 59_030_250_000 })
        .push(StepEntry { step_ns: 4_900_000, points: 57_825_562_500 })
        .push(StepEntry { step_ns: 5_000_000, points: 56_664_411_765 })
        .push(StepEntry { step_ns: 5_100_000, points: 55_553_294_118 })
        .push(StepEntry { step_ns: 5_200_000, points: 54_485_000_000 })
        .push(StepEntry { step_ns: 5_400_000, points: 52_463_222_222 })
        .push(StepEntry { step_ns: 5_600_000, points: 50_586_263_158 })
        .push(StepEntry { step_ns: 5_800_000, points: 48_841_842_105 })
        .push(StepEntry { step_ns: 6_000_000, points: 47_211_050_000 })
        .push(StepEntry { step_ns: 6_200_000, points: 45_685_666_667 })
        .push(StepEntry { step_ns: 6_400_000, points: 44_255_818_182 })
        .push(StepEntry { step_ns: 6_600_000, points: 42_914_772_727 })
        .push(StepEntry { step_ns: 6_800_000, points: 41_650_739_130 })
        .push(StepEntry { step_ns: 7_000_000, points: 40_459_083_333 })
        .push(StepEntry { step_ns: 7_200_000, points: 39_335_208_333 })
        .push(StepEntry { step_ns: 7_400_000, points: 38_270_680_000 })
        .push(StepEntry { step_ns: 7_700_000, points: 36_778_346_154 })
        .push(StepEntry { step_ns: 8_000_000, points: 35_398_000_000 })
        .push(StepEntry { step_ns: 8_300_000, points: 34_117_571_429 })
        .push(StepEntry { step_ns: 8_600_000, points: 32_926_517_241 })
        .push(StepEntry { step_ns: 8_900_000, points: 31_815_833_333 })
        .push(StepEntry { step_ns: 9_200_000, points: 30_777_612_903 })
        .push(StepEntry { step_ns: 9_600_000, points: 29_493_939_394 })
        .push(StepEntry { step_ns: 10_000_000, points: 28_313_588_235 })
        .push(StepEntry { step_ns: 10_400_000, points: 27_223_638_889 })
        .push(StepEntry { step_ns: 10_900_000, points: 25_974_405_405 })
        .push(StepEntry { step_ns: 11_400_000, points: 24_834_410_256 })
        .push(StepEntry { step_ns: 11_900_000, points: 23_790_268_293 })
        .push(StepEntry { step_ns: 12_500_000, points: 22_647_767_442 })
        .push(StepEntry { step_ns: 13_100_000, points: 21_609_977_778 })
        .push(StepEntry { step_ns: 13_800_000, points: 20_513_166_667 })
        .push(StepEntry { step_ns: 14_600_000, points: 19_388_627_451 })
        .push(StepEntry { step_ns: 15_400_000, points: 18_381_132_075 })
        .push(StepEntry { step_ns: 16_300_000, points: 17_365_719_298 })
        .push(StepEntry { step_ns: 17_300_000, points: 16_361_600_000 })
        .push(StepEntry { step_ns: 18_500_000, points: 15_299_937_500 })
        .push(StepEntry { step_ns: 19_900_000, points: 14_223_202_899 })
        .push(StepEntry { step_ns: 21_500_000, points: 13_164_400_000 })
        .push(StepEntry { step_ns: 23_300_000, points: 12_147_123_457 })
        .push(StepEntry { step_ns: 25_500_000, points: 11_098_876_404 })
        .push(StepEntry { step_ns: 28_100_000, points: 10_071_693_878 })
        .push(StepEntry { step_ns: 28_400_000, points: 9_965_282_828 })
        .push(StepEntry { step_ns: 28_700_000, points: 9_861_100_000 })
        .push(StepEntry { step_ns: 29_000_000, points: 9_759_059_406 })
        .push(StepEntry { step_ns: 29_400_000, points: 9_626_242_718 })
        .push(StepEntry { step_ns: 29_800_000, points: 9_497_009_615 })
        .push(StepEntry { step_ns: 30_200_000, points: 9_371_179_245 })
        .push(StepEntry { step_ns: 30_600_000, points: 9_248_672_897 })
        .push(StepEntry { step_ns: 31_000_000, points: 9_129_293_578 })
        .push(StepEntry { step_ns: 31_400_000, points: 9_012_981_818 })
        .push(StepEntry { step_ns: 31_800_000, points: 8_899_594_595 })
        .push(StepEntry { step_ns: 32_200_000, points: 8_789_000_000 })
        .push(StepEntry { step_ns: 32_600_000, points: 8_681_149_123 })
        .push(StepEntry { step_ns: 33_000_000, points: 8_575_896_552 })
        .push(StepEntry { step_ns: 33_400_000, points: 8_473_170_940 })
        .push(StepEntry { step_ns: 33_900_000, points: 8_348_176_471 })
        .push(StepEntry { step_ns: 34_400_000, points: 8_226_809_917 })
        .push(StepEntry { step_ns: 34_900_000, points: 8_108_934_426 })
        .push(StepEntry { step_ns: 35_400_000, points: 7_994_379_032 })
        .push(StepEntry { step_ns: 35_900_000, points: 7_883_015_873 })
        .push(StepEntry { step_ns: 36_400_000, points: 7_774_710_938 })
        .push(StepEntry { step_ns: 36_900_000, points: 7_669_348_837 })
        .push(StepEntry { step_ns: 37_400_000, points: 7_566_801_527 })
        .push(StepEntry { step_ns: 38_000_000, points: 7_447_308_271 })
        .push(StepEntry { step_ns: 38_600_000, points: 7_331_525_926 })
        .push(StepEntry { step_ns: 39_200_000, points: 7_219_291_971 })
        .push(StepEntry { step_ns: 39_800_000, points: 7_110_435_714 })
        .push(StepEntry { step_ns: 40_400_000, points: 7_004_816_901 })
        .push(StepEntry { step_ns: 41_000_000, points: 6_902_298_611 })
        .push(StepEntry { step_ns: 41_700_000, points: 6_786_417_808 })
        .push(StepEntry { step_ns: 42_400_000, points: 6_674_355_705 })
        .push(StepEntry { step_ns: 43_100_000, points: 6_565_940_397 })
        .push(StepEntry { step_ns: 43_800_000, points: 6_460_987_013 })
        .push(StepEntry { step_ns: 44_500_000, points: 6_359_339_744 })
        .push(StepEntry { step_ns: 45_300_000, points: 6_247_012_579 })
        .push(StepEntry { step_ns: 46_100_000, points: 6_138_592_593 })
        .push(StepEntry { step_ns: 46_900_000, points: 6_033_866_667 })
        .push(StepEntry { step_ns: 47_700_000, points: 5_932_660_714 })
        .push(StepEntry { step_ns: 48_600_000, points: 5_822_777_778 })
        .push(StepEntry { step_ns: 49_500_000, points: 5_716_896_552 })
        .push(StepEntry { step_ns: 50_400_000, points: 5_614_796_610 })
        .push(StepEntry { step_ns: 51_400_000, points: 5_505_541_436 })
        .push(StepEntry { step_ns: 52_400_000, points: 5_400_467_391 })
        .push(StepEntry { step_ns: 53_400_000, points: 5_299_324_468 })
        .push(StepEntry { step_ns: 54_500_000, points: 5_192_348_958 })
        .push(StepEntry { step_ns: 55_600_000, points: 5_089_615_385 })
        .push(StepEntry { step_ns: 56_800_000, points: 4_982_075_000 })
        .push(StepEntry { step_ns: 58_000_000, points: 4_878_985_294 })
        .push(StepEntry { step_ns: 59_300_000, points: 4_772_014_354 })
        .push(StepEntry { step_ns: 60_600_000, points: 4_669_633_803 })
        .push(StepEntry { step_ns: 62_000_000, points: 4_564_178_899 })
        .push(StepEntry { step_ns: 63_400_000, points: 4_463_381_166 })
        .push(StepEntry { step_ns: 64_900_000, points: 4_360_214_912 })
        .push(StepEntry { step_ns: 66_500_000, points: 4_255_294_872 })
        .push(StepEntry { step_ns: 68_200_000, points: 4_149_216_667 })
        .push(StepEntry { step_ns: 69_900_000, points: 4_048_296_748 })
        .push(StepEntry { step_ns: 71_700_000, points: 3_946_654_762 })
        .push(StepEntry { step_ns: 73_600_000, points: 3_844_764_479 })
        .push(StepEntry { step_ns: 75_600_000, points: 3_743_041_353 })
        .push(StepEntry { step_ns: 77_700_000, points: 3_641_872_263 })
        .push(StepEntry { step_ns: 79_900_000, points: 3_541_583_630 })
        .push(StepEntry { step_ns: 82_300_000, points: 3_438_300_000 })
        .push(StepEntry { step_ns: 84_800_000, points: 3_336_926_421 })
        .push(StepEntry { step_ns: 87_500_000, points: 3_233_951_299 })
        .push(StepEntry { step_ns: 90_300_000, points: 3_133_666_667 })
        .push(StepEntry { step_ns: 93_300_000, points: 3_032_899_696 })
        .push(StepEntry { step_ns: 96_500_000, points: 2_932_320_588 })
        .push(StepEntry { step_ns: 100_000_000, points: 2_829_684_659 })
}

/// Appends a row that continues the order of a table.
fn append_entry(v: &mut Vec<StepEntry>, step_ns: u64, points: u64)
    requires
        table_ordered(old(v)@),
        old(v)@.last().step_ns < step_ns,
        old(v)@.last().points > points,
        points > 0,
    ensures
        final(v)@ == old(v)@.push(StepEntry { step_ns, points }),
        table_ordered(final(v)@),
{
    proof {
        lemma_push_ordered(v@, StepEntry { step_ns, points });
    }
    v.push(StepEntry { step_ns, points });
}

impl StepSizeTable {
    /// The measured table of the Hindmarsh-Rose model.
    #[verifier::rlimit(100)]
    pub fn standard() -> (r: StepSizeTable)
        ensures
            r.wf(),
            r@ == standard_rows(),
            r@.len() == 144,
    {
        let mut v: Vec<StepEntry> = Vec::new();
        v.push(StepEntry { step_ns: 500_000, points: 577_638_000_000 });
        append_entry(&mut v, 600_000, 481_366_000_000);
        append_entry(&mut v, 700_000, 412_599_000_000);
        append_entry(&mut v, 800_000, 357_615_500_000);
        append_entry(&mut v, 900_000, 317_880_000_000);
        append_entry(&mut v, 1_000_000, 286_092_500_000);
        append_entry(&mut v, 1_100_000, 259_143_333_333);
        append_entry(&mut v, 1_200_000, 237_548_000_000);
        append_entry(&mut v, 1_300_000, 218_869_500_000);
        append_entry(&mut v, 1_400_000, 203_236_000_000);
        append_entry(&mut v, 1_500_000, 189_687_000_000);
        append_entry(&mut v, 1_600_000, 177_634_000_000);
        append_entry(&mut v, 1_800_000, 157_897_000_000);
        append_entry(&mut v, 2_000_000, 142_001_833_333);
        append_entry(&mut v, 2_200_000, 129_024_142_857);
        append_entry(&mut v, 2_500_000, 113_496_125_000);
        append_entry(&mut v, 2_800_000, 101_304_555_556);
        append_entry(&mut v, 2_900_000, 97_811_222_222);
        append_entry(&mut v, 3_000_000, 94_527_400_000);
        append_entry(&mut v, 3_100_000, 91_478_200_000);
        append_entry(&mut v, 3_200_000, 88_619_400_000);
        append_entry(&mut v, 3_300_000, 85_916_636_364);
        append_entry(&mut v, 3_400_000, 83_389_636_364);
        append_entry(&mut v, 3_500_000, 81_007_090_909);
        append_entry(&mut v, 3_600_000, 78_743_583_333);
        append_entry(&mut v, 3_700_000, 76_615_416_667);
        append_entry(&mut v, 3_800_000, 74_599_250_000);
        append_entry(&mut v, 3_900_000, 72_676_000_000);
        append_entry(&mut v, 4_000_000, 70_859_076_923);
        append_entry(&mut v, 4_100_000, 69_130_846_154);
        append_entry(&mut v, 4_200_000, 67_476_642_857);
        append_entry(&mut v, 4_300_000, 65_907_357_143);
        append_entry(&mut v, 4_400_000, 64_402_666_667);
        append_entry(&mut v, 4_500_000, 62_971_466_667);
        append_entry(&mut v, 4_600_000, 61_602_533_333);
        append_entry(&mut v, 4_700_000, 60_286_187_500);
        append_entry(&mut v, 4_800_000, 59_030_250_000);
        append_entry(&mut v, 4_900_000, 57_825_562_500);
        append_entry(&mut v, 5_000_000, 56_664_411_765);
        append_entry(&mut v, 5_100_000, 55_553_294_118);
        append_entry(&mut v, 5_200_000, 54_485_000_000);
        append_entry(&mut v, 5_400_000, 52_463_222_222);
        append_entry(&mut v, 5_600_000, 50_586_263_158);
        append_entry(&mut v, 5_800_000, 48_841_842_105);
        append_entry(&mut v, 6_000_000, 47_211_050_000);
        append_entry(&mut v, 6_200_000, 45_685_666_667);
        append_entry(&mut v, 6_400_000, 44_255_818_182);
        append_entry(&mut v, 6_600_000, 42_914_772_727);
        append_entry(&mut v, 6_800_000, 41_650_739_130);
        append_entry(&mut v, 7_000_000, 40_459_083_333);
        append_entry(&mut v, 7_200_000, 39_335_208_333);
        append_entry(&mut v, 7_400_000, 38_270_680_000);
        append_entry(&mut v, 7_700_000, 36_778_346_154);
        append_entry(&mut v, 8_000_000, 35_398_000_000);
        append_entry(&mut v, 8_300_000, 34_117_571_429);
        append_entry(&mut v, 8_600_000, 32_926_517_241);
        append_entry(&mut v, 8_900_000, 31_815_833_333);
        append_entry(&mut v, 9_200_000, 30_777_612_903);
        append_entry(&mut v, 9_600_000, 29_493_939_394);
        append_entry(&mut v, 10_000_000, 28_313_588_235);
        append_entry(&mut v, 10_400_000, 27_223_638_889);
        append_entry(&mut v, 10_900_000, 25_974_405_405);
        append_entry(&mut v, 11_400_000, 24_834_410_256);
        append_entry(&mut v, 11_900_000, 23_790_268_293);
        append_entry(&mut v, 12_500_000, 22_647_767_442);
        append_entry(&mut v, 13_100_000, 21_609_977_778);
        append_entry(&mut v, 13_800_000, 20_513_166_667);
        append_entry(&mut v, 14_600_000, 19_388_627_451);
        append_entry(&mut v, 15_400_000, 18_381_132_075);
        append_entry(&mut v, 16_300_000, 17_365_719_298);
        append_entry(&mut v, 17_300_000, 16_361_600_000);
        append_entry(&mut v, 18_500_000, 15_299_937_500);
        append_entry(&mut v, 19_900_000, 14_223_202_899);
        append_entry(&mut v, 21_500_000, 13_164_400_000);
        append_entry(&mut v, 23_300_000, 12_147_123_457);
        append_entry(&mut v, 25_500_000, 11_098_876_404);
        append_entry(&mut v, 28_100_000, 10_071_693_878);
        append_entry(&mut v, 28_400_000, 9_965_282_828);
        append_entry(&mut v, 28_700_000, 9_861_100_000);
        append_entry(&mut v, 29_000_000, 9_759_059_406);
        append_entry(&mut v, 29_400_000, 9_626_242_718);
        append_entry(&mut v, 29_800_000, 9_497_009_615);
        append_entry(&mut v, 30_200_000, 9_371_179_245);
        append_entry(&mut v, 30_600_000, 9_248_672_897);
        append_entry(&mut v, 31_000_000, 9_129_293_578);
        append_entry(&mut v, 31_400_000, 9_012_981_818);
        append_entry(&mut v, 31_800_000, 8_899_594_595);
        append_entry(&mut v, 32_200_000, 8_789_000_000);
        append_entry(&mut v, 32_600_000, 8_681_149_123);
        append_entry(&mut v, 33_000_000, 8_575_896_552);
        append_entry(&mut v, 33_400_000, 8_473_170_940);
        append_entry(&mut v, 33_900_000, 8_348_176_471);
        append_entry(&mut v, 34_400_000, 8_226_809_917);
        append_entry(&mut v, 34_900_000, 8_108_934_426);
        append_entry(&mut v, 35_400_000, 7_994_379_032);
        append_entry(&mut v, 35_900_000, 7_883_015_873);
        append_entry(&mut v, 36_400_000, 7_774_710_938);
        append_entry(&mut v, 36_900_000, 7_669_348_837);
        append_entry(&mut v, 37_400_000, 7_566_801_527);
        append_entry(&mut v, 38_000_000, 7_447_308_271);
        append_entry(&mut v, 38_600_000, 7_331_525_926);
        append_entry(&mut v, 39_200_000, 7_219_291_971);
        append_entry(&mut v, 39_800_000, 7_110_435_714);
        append_entry(&mut v, 40_400_000, 7_004_816_901);
        append_entry(&mut v, 41_000_000, 6_902_298_611);
        append_entry(&mut v, 41_700_000, 6_786_417_808);
        append_entry(&mut v, 42_400_000, 6_674_355_705);
        append_entry(&mut v, 43_100_000, 6_565_940_397);
        append_entry(&mut v, 43_800_000, 6_460_987_013);
        append_entry(&mut v, 44_500_000, 6_359_339_744);
        append_entry(&mut v, 45_300_000, 6_247_012_579);
        append_entry(&mut v, 46_100_000, 6_138_592_593);
        append_entry(&mut v, 46_900_000, 6_033_866_667);
        append_entry(&mut v, 47_700_000, 5_932_660_714);
        append_entry(&mut v, 48_600_000, 5_822_777_778);
        append_entry(&mut v, 49_500_000, 5_716_896_552);
        append_entry(&mut v, 50_400_000, 5_614_796_610);
        append_entry(&mut v, 51_400_000, 5_505_541_436);
        append_entry(&mut v, 52_400_000, 5_400_467_391);
        append_entry(&mut v, 53_400_000, 5_299_324_468);
        append_entry(&mut v, 54_500_000, 5_192_348_958);
        append_entry(&mut v, 55_600_000, 5_089_615_385);
        append_entry(&mut v, 56_800_000, 4_982_075_000);
        append_entry(&mut v, 58_000_000, 4_878_985_294);
        append_entry(&mut v, 59_300_000, 4_772_014_354);
        append_entry(&mut v, 60_600_000, 4_669_633_803);
        append_entry(&mut v, 62_000_000, 4_564_178_899);
        append_entry(&mut v, 63_400_000, 4_463_381_166);
        append_entry(&mut v, 64_900_000, 4_360_214_912);
        append_entry(&mut v, 66_500_000, 4_255_294_872);
        append_entry(&mut v, 68_200_000, 4_149_216_667);
        append_entry(&mut v, 69_900_000, 4_048_296_748);
        append_entry(&mut v, 71_700_000, 3_946_654_762);
        append_entry(&mut v, 73_600_000, 3_844_764_479);
        append_entry(&mut v, 75_600_000, 3_743_041_353);
        append_entry(&mut v, 77_700_000, 3_641_872_263);
        append_entry(&mut v, 79_900_000, 3_541_583_630);
        append_entry(&mut v, 82_300_000, 3_438_300_000);
        append_entry(&mut v, 84_800_000, 3_336_926_421);
        append_entry(&mut v, 87_500_000, 3_233_951_299);
        append_entry(&mut v, 90_300_000, 3_133_666_667);
        append_entry(&mut v, 93_300_000, 3_032_899_696);
        append_entry(&mut v, 96_500_000, 2_932_320_588);
        append_entry(&mut v, 100_000_000, 2_829_684_659);
        StepSizeTable { entries: v }
    }
}

} // verus!
