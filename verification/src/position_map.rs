use crate::display::{TableDisplayInfo, TableDisplayInfoView};
use vstd::prelude::*;

verus! {

/// The numbers of the monitors of a batch, in the order of the batch.
pub open spec fn numbers(batch: Seq<TableDisplayInfoView>) -> Seq<u8> {
    Seq::new(batch.len(), |i: int| batch[i].number)
}

/// Some monitor of the batch has the number `d`.
pub open spec fn listed(numbers: Seq<u8>, d: int) -> bool {
    exists|i: int| 0 <= i < numbers.len() && #[trigger] numbers[i] == d
}

/// `p` is the last position at which the number `d` stands.
pub open spec fn is_last_position(numbers: Seq<u8>, d: int, p: int) -> bool {
    &&& 0 <= p < numbers.len()
    &&& numbers[p] == d
    &&& forall|j: int| p < j < numbers.len() ==> #[trigger] numbers[j] != d
}

/// `map` is the position map of a batch with these numbers: it has one
/// entry for every number up to the largest one of the batch, and none
/// for an empty batch; the entry of a number that the batch holds is the
/// last position at which it stands, and every other entry is zero.
pub open spec fn is_position_map(numbers: Seq<u8>, map: Seq<usize>) -> bool {
    &&& numbers.len() == 0 ==> map.len() == 0
    &&& numbers.len() > 0 ==> map.len() > 0 && listed(numbers, map.len() - 1)
    &&& forall|i: int| 0 <= i < numbers.len() ==> #[trigger] numbers[i] < map.len()
    &&& forall|d: int|
        0 <= d < map.len() ==> if listed(numbers, d) {
            is_last_position(numbers, d, #[trigger] map[d] as int)
        } else {
            map[d] == 0
        }
}

/// Through the position map of a batch, the number of each monitor of the
/// batch leads to a position in the batch, and the monitor at that
/// position has that number.
pub proof fn lemma_position_map_finds_every_monitor(numbers: Seq<u8>, map: Seq<usize>, i: int)
    requires
        is_position_map(numbers, map),
        0 <= i < numbers.len(),
    ensures
        numbers[i] < map.len(),
        0 <= map[numbers[i] as int] < numbers.len(),
        numbers[map[numbers[i] as int] as int] == numbers[i],
{
}

/// Where no two monitors of a batch share a number, the position map
/// leads from the number of each monitor to the position of that very
/// monitor.
pub proof fn lemma_position_map_inverts_distinct_numbers(
    numbers: Seq<u8>,
    map: Seq<usize>,
    i: int,
)
    requires
        is_position_map(numbers, map),
        0 <= i < numbers.len(),
        forall|a: int, b: int|
            0 <= a < b < numbers.len() ==> #[trigger] numbers[a] != #[trigger] numbers[b],
    ensures
        map[numbers[i] as int] == i,
{
    lemma_position_map_finds_every_monitor(numbers, map, i);
}

/// A batch has one position map only.
pub proof fn lemma_position_map_is_unique(numbers: Seq<u8>, a: Seq<usize>, b: Seq<usize>)
    requires
        is_position_map(numbers, a),
        is_position_map(numbers, b),
    ensures
        a == b,
{
    assert(a =~= b);
}

/// The largest number of a batch that is not empty.
fn largest_number(displays: &Vec<TableDisplayInfo>) -> (max: u8)
    requires
        displays@.len() > 0,
    ensures
        listed(numbers(displays.deep_view()), max as int),
        forall|i: int|
            0 <= i < displays@.len() ==> #[trigger] numbers(displays.deep_view())[i] <= max,
{
    let ghost nums = numbers(displays.deep_view());
    let mut max: u8 = displays[0].number;
    let mut i: usize = 1;
    assert(nums[0] == max);
    while i < displays.len()
        invariant
            1 <= i <= displays@.len(),
            nums == numbers(displays.deep_view()),
            nums.len() == displays@.len(),
            listed(nums, max as int),
            forall|j: int| 0 <= j < i ==> #[trigger] nums[j] <= max,
        decreases displays@.len() - i,
    {
        assert(nums[i as int] == displays@[i as int].number);
        if displays[i].number > max {
            max = displays[i].number;
        }
        i = i + 1;
    }
    max
}

/// Builds the position map of a batch: the table that leads from the
/// number of a monitor to its position in the batch.
pub fn position_map(displays: &Vec<TableDisplayInfo>) -> (map: Vec<usize>)
    ensures
        is_position_map(numbers(displays.deep_view()), map@),
{
    let ghost nums = numbers(displays.deep_view());
    let mut map: Vec<usize> = Vec::new();
    if displays.len() == 0 {
        return map;
    }
    let max = largest_number(displays);
    let mut n: usize = 0;
    while n <= max as usize
        invariant
            n <= max + 1,
            map@.len() == n,
            forall|d: int| 0 <= d < n ==> #[trigger] map@[d] == 0,
        decreases max + 1 - n,
    {
        map.push(0);
        n = n + 1;
    }
    let mut i: usize = 0;
    while i < displays.len()
        invariant
            i <= displays@.len(),
            nums == numbers(displays.deep_view()),
            nums.len() == displays@.len(),
            map@.len() == max + 1,
            forall|j: int| 0 <= j < nums.len() ==> #[trigger] nums[j] <= max,
            forall|d: int|
                0 <= d < map@.len() ==> if listed(nums.take(i as int), d) {
                    is_last_position(nums.take(i as int), d, #[trigger] map@[d] as int)
                } else {
                    map@[d] == 0
                },
        decreases displays@.len() - i,
    {
        let number = displays[i].number;
        let ghost before = nums.take(i as int);
        let ghost after = nums.take(i + 1);
        assert(nums[i as int] == number);
        map.set(number as usize, i);
        proof {
            assert forall|d: int| 0 <= d < map@.len() implies if listed(after, d) {
                is_last_position(after, d, #[trigger] map@[d] as int)
            } else {
                map@[d] == 0
            } by {
                if d == number {
                    assert(after[i as int] == number);
                } else if listed(after, d) {
                    let w = choose|w: int| 0 <= w < after.len() && #[trigger] after[w] == d;
                    assert(before[w] == d);
                } else if listed(before, d) {
                    let w = choose|w: int| 0 <= w < before.len() && #[trigger] before[w] == d;
                    assert(after[w] == d);
                }
            }
        }
        i = i + 1;
    }
    proof {
        assert(nums.take(i as int) =~= nums);
    }
    map
}

} // verus!
