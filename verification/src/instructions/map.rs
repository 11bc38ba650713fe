use crate::errors::ValidationError;
use crate::identity::Id;
use crate::state::map::TileMap;
use crate::state::map::TileMapView;
use crate::state::map::MAP_MAX_HEIGHT;
use crate::state::map::MAP_MAX_WIDTH;
use vstd::prelude::*;

verus! {

/// `index` is the last position of `list` that holds something other than
/// `pad`.
pub open spec fn is_last_other(list: Seq<u8>, pad: u8, index: int) -> bool {
    &&& 0 <= index < list.len()
    &&& list[index] != pad
    &&& forall|j: int| index < j < list.len() ==> list[j] == pad
}

/// The last position of `list` that holds something other than `pad`, if
/// there is one.
pub open spec fn last_other(list: Seq<u8>, pad: u8) -> Option<int> {
    if exists|i: int| is_last_other(list, pad, i) {
        Some(choose|i: int| is_last_other(list, pad, i))
    } else {
        None
    }
}

/// The later of two optional positions.
pub open spec fn later(a: Option<int>, b: Option<int>) -> Option<int> {
    match (a, b) {
        (Some(i), Some(j)) => if i >= j {
            a
        } else {
            b
        },
        (Some(_), None) => a,
        _ => b,
    }
}

/// How much of a padded list of `len` entries is in use, given the last
/// position that holds something: all of it where nothing does.
pub open spec fn used(last: Option<int>, len: nat) -> int {
    match last {
        Some(i) => i + 1,
        None => len as int,
    }
}

/// The row starts of a map without their padding.
pub open spec fn rows_in_use(m: TileMapView) -> Seq<u8> {
    m.row_ptrs.take(used(last_other(m.row_ptrs, m.compressed_value), m.row_ptrs.len()))
}

/// The number of listed tiles of a map: the columns and values up to the
/// last entry of either list that is not padding.
pub open spec fn tiles_in_use(m: TileMapView) -> int {
    used(
        later(last_other(m.columns, m.compressed_value), last_other(m.values, m.compressed_value)),
        m.columns.len(),
    )
}

/// Where the tiles of row `y` end in the lists: where the next row starts,
/// or at the end of the lists for the last row and for a row whose
/// successor starts before it.
pub open spec fn row_end(rows: Seq<u8>, columns: Seq<u8>, y: int) -> int {
    let next = if y + 1 < rows.len() {
        rows[y + 1] as int
    } else {
        0
    };
    if next < rows[y] {
        columns.len() as int
    } else {
        next
    }
}

/// `index` is the first position from `from` up to `to` whose column is
/// not left of `x`.
pub open spec fn is_stop(columns: Seq<u8>, x: u8, from: int, to: int, index: int) -> bool {
    &&& from <= index < to
    &&& index < columns.len()
    &&& columns[index] >= x
    &&& forall|j: int| from <= j < index ==> columns[j] < x
}

/// What looking for the tile at column `x` of row `y` finds.
pub enum Lookup {
    /// The tile is listed at this position.
    Found(int),
    /// The tile is not listed; this is where it belongs in the lists.
    Missing(int),
    /// The row is not listed or has no tiles.
    NoRow,
    /// The row claims more tiles than are listed.
    Broken,
}

/// Looks for the tile at column `x` of row `y`.
pub open spec fn lookup(rows: Seq<u8>, columns: Seq<u8>, x: u8, y: u8) -> Lookup {
    if y >= rows.len() {
        Lookup::NoRow
    } else {
        let from = rows[y as int] as int;
        let to = row_end(rows, columns, y as int);
        if from >= to {
            Lookup::NoRow
        } else if exists|i: int| is_stop(columns, x, from, to, i) {
            let stop = choose|i: int| is_stop(columns, x, from, to, i);
            if columns[stop] == x {
                Lookup::Found(stop)
            } else {
                Lookup::Missing(stop)
            }
        } else if to <= columns.len() {
            Lookup::Missing(to)
        } else {
            Lookup::Broken
        }
    }
}

/// `list` cut or padded to `len` entries.
pub open spec fn padded(list: Seq<u8>, pad: u8, len: nat) -> Seq<u8> {
    Seq::new(
        len,
        |i: int|
            if i < list.len() {
                list[i]
            } else {
                pad
            },
    )
}

/// The row starts after a tile was inserted into row `y`: every later
/// start moves up by one, but for starts of 0.
pub open spec fn shifted(rows: Seq<u8>, y: int) -> Seq<u8> {
    Seq::new(
        rows.len(),
        |i: int|
            if i > y && rows[i] > 0 {
                (rows[i] + 1) as u8
            } else {
                rows[i]
            },
    )
}

/// Whether every row start after row `y` can move up by one.
pub open spec fn can_shift(rows: Seq<u8>, y: int) -> bool {
    forall|i: int| y < i < rows.len() ==> rows[i] != 255
}

/// The starts of `count` rows of one padding tile each, the first of them
/// at position `start`; a start is kept as a byte.
pub open spec fn filler_starts(start: int, count: nat) -> Seq<u8> {
    Seq::new(count, |j: int| ((start + j) % 256) as u8)
}

/// `count` entries of padding.
pub open spec fn filler(pad: u8, count: nat) -> Seq<u8> {
    Seq::new(count, |j: int| pad)
}

/// The map with the given lists stored, cut or padded to the room that a
/// stored map has.
pub open spec fn stored(
    m: TileMapView,
    rows: Seq<u8>,
    columns: Seq<u8>,
    values: Seq<u8>,
    width: u8,
    height: u8,
) -> TileMapView {
    TileMapView {
        row_ptrs: padded(rows, m.compressed_value, MAP_MAX_HEIGHT as nat),
        columns: padded(columns, m.compressed_value, MAP_MAX_WIDTH as nat),
        values: padded(values, m.compressed_value, MAP_MAX_WIDTH as nat),
        width,
        height,
        ..m
    }
}

/// The map that every game starts with: six columns, five rows, and
/// thirteen tiles listed in four rows.
pub open spec fn initial_map(owner: Id, compressed_value: u8) -> TileMapView {
    TileMapView {
        owner,
        row_ptrs: seq![0u8, 2, 4, 8, 0, 0, 0, 0, 0, 0],
        columns: seq![2u8, 3, 1, 2, 0, 1, 2, 5, 1, 2, 3, 4, 5, 0, 0, 0, 0, 0, 0, 0],
        values: seq![3u8, 1, 2, 1, 4, 2, 1, 3, 5, 1, 4, 2, 1, 0, 0, 0, 0, 0, 0, 0],
        width: 6,
        height: 5,
        compressed_value,
    }
}

/// The map after a tile that belongs at position `at` of the lists was
/// inserted into row `y`, or `None` where a row start or the width has no
/// room to grow: the rows behind row `y` move up, and the map widens to
/// hold column `x`.
pub open spec fn inserted(
    m: TileMapView,
    rows: Seq<u8>,
    columns: Seq<u8>,
    values: Seq<u8>,
    at: int,
    x: u8,
    y: u8,
    value: u8,
) -> Option<TileMapView> {
    if !can_shift(rows, y as int) || x == 255 {
        None
    } else {
        Some(
            stored(
                m,
                shifted(rows, y as int),
                columns.insert(at, x),
                values.insert(at, value),
                if x >= m.width {
                    (x + 1) as u8
                } else {
                    m.width
                },
                m.height,
            ),
        )
    }
}

/// The number of rows of padding that lead up to a new row `y` of a map
/// of the given height.
pub open spec fn rows_before(height: u8, y: u8) -> nat {
    if y + 1 > height {
        (y + 1 - height) as nat
    } else {
        0
    }
}

/// The map after row `y` was appended with the tile at column `x`, or
/// `None` where column or row are the last that a byte can count: rows of
/// one padding tile each lead up to row `y`, and the map widens to hold
/// column `x`. A row below the height of the map gets nothing.
pub open spec fn appended(
    m: TileMapView,
    rows: Seq<u8>,
    columns: Seq<u8>,
    values: Seq<u8>,
    x: u8,
    y: u8,
    value: u8,
) -> Option<TileMapView> {
    if x == 255 || y == 255 {
        None
    } else {
        let width = if x + 1 >= m.width {
            (x + 1) as u8
        } else {
            m.width
        };
        let count = rows_before(m.height, y);
        let filled_rows = rows + filler_starts(columns.len() as int, count);
        let filled_columns = columns + filler(m.compressed_value, count);
        let filled_values = values + filler(m.compressed_value, count);
        if y + 1 >= m.height {
            Some(
                stored(
                    m,
                    filled_rows.push(((columns.len() + count) % 256) as u8),
                    filled_columns.push(x),
                    filled_values.push(value),
                    width,
                    (y + 1) as u8,
                ),
            )
        } else {
            Some(stored(m, filled_rows, filled_columns, filled_values, width, m.height))
        }
    }
}

/// The map after the tile at column `x` of row `y` was set to `value`, or
/// `None` where the lists cannot take it.
///
/// A listed tile gets the new value, and nothing else changes. A tile that
/// belongs into a listed row is inserted there. Otherwise row `y` is
/// appended with the tile. What the lists hold beyond their room is cut
/// off.
pub open spec fn put_outcome(m: TileMapView, x: u8, y: u8, value: u8) -> Option<TileMapView> {
    let rows = rows_in_use(m);
    let tiles = tiles_in_use(m);
    let columns = m.columns.take(tiles);
    let values = m.values.take(tiles);
    match lookup(rows, columns, x, y) {
        Lookup::Broken => None,
        Lookup::Found(at) => Some(TileMapView { values: m.values.update(at, value), ..m }),
        Lookup::Missing(at) => inserted(m, rows, columns, values, at, x, y, value),
        Lookup::NoRow => appended(m, rows, columns, values, x, y, value),
    }
}

/// At most one position of a list is the last that holds something other
/// than the padding.
pub proof fn last_other_is_unique(list: Seq<u8>, pad: u8, index: int)
    requires
        is_last_other(list, pad, index),
    ensures
        last_other(list, pad) == Some(index),
{
    let chosen = choose|i: int| is_last_other(list, pad, i);
    assert(is_last_other(list, pad, chosen));
    if chosen < index {
        assert(list[index] == pad);
    } else if index < chosen {
        assert(list[chosen] == pad);
    }
}

/// At most one position of a row is the first whose column is not left of
/// `x`.
pub proof fn stop_is_unique(columns: Seq<u8>, x: u8, from: int, to: int, index: int)
    requires
        is_stop(columns, x, from, to, index),
    ensures
        (choose|i: int| is_stop(columns, x, from, to, i)) == index,
        exists|i: int| is_stop(columns, x, from, to, i),
{
    let chosen = choose|i: int| is_stop(columns, x, from, to, i);
    assert(is_stop(columns, x, from, to, chosen));
    if chosen < index {
        assert(columns[chosen] < x);
    } else if index < chosen {
        assert(columns[index] < x);
    }
}

/// Lists that are stored as they were taken out of a map leave the map as
/// it was.
pub proof fn storing_the_lists_in_use_changes_nothing(m: TileMapView)
    requires
        m.row_ptrs.len() == MAP_MAX_HEIGHT,
        m.columns.len() == MAP_MAX_WIDTH,
        m.values.len() == MAP_MAX_WIDTH,
    ensures
        stored(
            m,
            rows_in_use(m),
            m.columns.take(tiles_in_use(m)),
            m.values.take(tiles_in_use(m)),
            m.width,
            m.height,
        ) == m,
{
    let pad = m.compressed_value;
    let rows = rows_in_use(m);
    assert(padded(rows, pad, MAP_MAX_HEIGHT as nat) =~= m.row_ptrs) by {
        if last_other(m.row_ptrs, pad) is Some {
            let last = last_other(m.row_ptrs, pad).unwrap();
            assert(is_last_other(m.row_ptrs, pad, last));
        }
    }
    let tiles = tiles_in_use(m);
    let last_column = last_other(m.columns, pad);
    let last_value = last_other(m.values, pad);
    if last_column is Some {
        assert(is_last_other(m.columns, pad, last_column.unwrap()));
    }
    if last_value is Some {
        assert(is_last_other(m.values, pad, last_value.unwrap()));
    }
    assert forall|j: int| tiles <= j < MAP_MAX_WIDTH implies m.columns[j] == pad by {
        if last_column is None {
            if m.columns[j] != pad {
                no_other_means_all_padding(m.columns, pad, j);
            }
        }
    }
    assert forall|j: int| tiles <= j < MAP_MAX_WIDTH implies m.values[j] == pad by {
        if last_value is None {
            if m.values[j] != pad {
                no_other_means_all_padding(m.values, pad, j);
            }
        }
    }
    assert(padded(m.columns.take(tiles), pad, MAP_MAX_WIDTH as nat) =~= m.columns);
    assert(padded(m.values.take(tiles), pad, MAP_MAX_WIDTH as nat) =~= m.values);
}

/// A list that holds something other than padding has a last position
/// that does.
proof fn no_other_means_all_padding(list: Seq<u8>, pad: u8, index: int)
    requires
        0 <= index < list.len(),
        list[index] != pad,
    ensures
        last_other(list, pad) is Some,
    decreases list.len() - index,
{
    if forall|j: int| index < j < list.len() ==> list[j] == pad {
        assert(is_last_other(list, pad, index));
    } else {
        let j = choose|j: int| index < j < list.len() && list[j] != pad;
        no_other_means_all_padding(list, pad, j);
    }
}

/// The last position of `list` that holds something other than `pad`.
fn find_last_other(list: &[u8], pad: u8) -> (r: Option<usize>)
    ensures
        match r {
            Some(index) => last_other(list@, pad) == Some(index as int),
            None => last_other(list@, pad) is None,
        },
{
    let mut index: usize = list.len();
    while index > 0
        invariant
            index <= list.len(),
            forall|j: int| index <= j < list.len() ==> list@[j] == pad,
        decreases index,
    {
        index = index - 1;
        if list[index] != pad {
            proof {
                last_other_is_unique(list@, pad, index as int);
            }
            return Some(index);
        }
    }
    None
}

/// The first `len` entries of `list`.
fn copy_of(list: &[u8], len: usize) -> (copy: Vec<u8>)
    requires
        len <= list.len(),
    ensures
        copy@ == list@.take(len as int),
{
    let mut copy: Vec<u8> = Vec::new();
    let mut index: usize = 0;
    while index < len
        invariant
            index <= len <= list.len(),
            copy@ == list@.take(index as int),
        decreases len - index,
    {
        copy.push(list[index]);
        index = index + 1;
        assert(copy@ =~= list@.take(index as int));
    }
    copy
}

/// `list` cut or padded to the rows that a stored map has room for.
fn stored_rows(list: &Vec<u8>, pad: u8) -> (room: [u8; MAP_MAX_HEIGHT])
    ensures
        room@ == padded(list@, pad, MAP_MAX_HEIGHT as nat),
{
    let mut room: [u8; MAP_MAX_HEIGHT] = [pad;MAP_MAX_HEIGHT];
    let mut index: usize = 0;
    while index < MAP_MAX_HEIGHT
        invariant
            index <= MAP_MAX_HEIGHT,
            forall|j: int| 0 <= j < index ==> room@[j] == padded(list@, pad, MAP_MAX_HEIGHT as nat)[j],
            forall|j: int| index <= j < MAP_MAX_HEIGHT ==> room@[j] == pad,
        decreases MAP_MAX_HEIGHT - index,
    {
        if index < list.len() {
            room[index] = list[index];
        }
        index = index + 1;
    }
    assert(room@ =~= padded(list@, pad, MAP_MAX_HEIGHT as nat));
    room
}

/// `list` cut or padded to the tiles that a stored map has room for.
fn stored_tiles(list: &Vec<u8>, pad: u8) -> (room: [u8; MAP_MAX_WIDTH])
    ensures
        room@ == padded(list@, pad, MAP_MAX_WIDTH as nat),
{
    let mut room: [u8; MAP_MAX_WIDTH] = [pad;MAP_MAX_WIDTH];
    let mut index: usize = 0;
    while index < MAP_MAX_WIDTH
        invariant
            index <= MAP_MAX_WIDTH,
            forall|j: int| 0 <= j < index ==> room@[j] == padded(list@, pad, MAP_MAX_WIDTH as nat)[j],
            forall|j: int| index <= j < MAP_MAX_WIDTH ==> room@[j] == pad,
        decreases MAP_MAX_WIDTH - index,
    {
        if index < list.len() {
            room[index] = list[index];
        }
        index = index + 1;
    }
    assert(room@ =~= padded(list@, pad, MAP_MAX_WIDTH as nat));
    room
}

/// Looks for the tile at column `x` of row `y` in the lists of a map:
/// the position of the tile's value where the tile is listed, else the
/// position at which it belongs where its row is.
fn value_ptr(row_ptrs: &Vec<u8>, columns: &Vec<u8>, values: &Vec<u8>, x: u8, y: u8) -> (r: Result<
    (Option<u8>, Option<u8>),
    ValidationError,
>)
    requires
        row_ptrs.len() <= 255,
        columns.len() <= 255,
        values.len() == columns.len(),
    ensures
        match lookup(row_ptrs@, columns@, x, y) {
            Lookup::Found(at) => r == Ok::<(Option<u8>, Option<u8>), ValidationError>(
                (Some(at as u8), None),
            ) && 0 <= at < columns.len(),
            Lookup::Missing(at) => r == Ok::<(Option<u8>, Option<u8>), ValidationError>(
                (None, Some(at as u8)),
            ) && 0 <= at <= columns.len(),
            Lookup::NoRow => r == Ok::<(Option<u8>, Option<u8>), ValidationError>((None, None)),
            Lookup::Broken => r == Err::<(Option<u8>, Option<u8>), ValidationError>(
                ValidationError::InvalidInput,
            ),
        },
{
    if (y as usize) < row_ptrs.len() {
        let rp_val: u8 = row_ptrs[y as usize];
        let mut rp_val_next: u8 = 0;
        if (y as usize) + 1 < row_ptrs.len() {
            rp_val_next = row_ptrs[y as usize + 1];
        }
        if rp_val_next < rp_val {
            rp_val_next = columns.len() as u8;
        }
        let ghost from = rp_val as int;
        let ghost to = rp_val_next as int;
        assert(to == row_end(row_ptrs@, columns@, y as int));
        let mut col_subset_pos: u8 = rp_val;
        while col_subset_pos < rp_val_next
            invariant
                rp_val <= col_subset_pos,
                col_subset_pos < rp_val_next || col_subset_pos == rp_val,
                from == rp_val,
                to == rp_val_next,
                to == row_end(row_ptrs@, columns@, y as int),
                y < row_ptrs.len(),
                from == row_ptrs@[y as int],
                forall|j: int| from <= j < col_subset_pos ==> j < columns.len() && columns@[j] < x,
            decreases rp_val_next - col_subset_pos,
        {
            if col_subset_pos as usize >= columns.len() {
                proof {
                    assert forall|i: int| !is_stop(columns@, x, from, to, i) by {
                        if is_stop(columns@, x, from, to, i) {
                            assert(i < col_subset_pos);
                        }
                    }
                }
                return Err(ValidationError::InvalidInput);
            }
            if x == columns[col_subset_pos as usize] {
                proof {
                    stop_is_unique(columns@, x, from, to, col_subset_pos as int);
                }
                return Ok((Some(col_subset_pos), None));
            } else if x < columns[col_subset_pos as usize] {
                proof {
                    stop_is_unique(columns@, x, from, to, col_subset_pos as int);
                }
                return Ok((None, Some(col_subset_pos)));
            } else if col_subset_pos == rp_val_next - 1 {
                proof {
                    assert forall|i: int| !is_stop(columns@, x, from, to, i) by {
                        if is_stop(columns@, x, from, to, i) {
                            assert(columns@[i] < x);
                        }
                    }
                }
                return Ok((None, Some(col_subset_pos + 1)));
            }
            col_subset_pos = col_subset_pos + 1;
        }
    }
    Ok((None, None))
}

/// Moves the start of every row behind row `y` up by one, but for starts
/// of 0; fails where a start has no room to move.
fn shift_rows(row_ptrs: &mut Vec<u8>, y: u8) -> (r: Result<(), ValidationError>)
    ensures
        can_shift(old(row_ptrs)@, y as int) ==> r is Ok && final(row_ptrs)@ == shifted(
            old(row_ptrs)@,
            y as int,
        ),
        !can_shift(old(row_ptrs)@, y as int) ==> r is Err,
        r matches Err(e) ==> e == ValidationError::InvalidInput,
{
    let ghost rows = row_ptrs@;
    let mut row: usize = y as usize + 1;
    while row < row_ptrs.len()
        invariant
            y < row,
            rows == old(row_ptrs)@,
            row_ptrs.len() == rows.len(),
            forall|j: int| y < j < row && j < rows.len() ==> rows[j] != 255,
            forall|j: int|
                0 <= j < row && j < rows.len() ==> row_ptrs@[j] == shifted(rows, y as int)[j],
            forall|j: int| row <= j < rows.len() ==> row_ptrs@[j] == rows[j],
        decreases row_ptrs.len() - row,
    {
        if row_ptrs[row] > 0 {
            if row_ptrs[row] == 255 {
                assert(rows[row as int] == 255);
                return Err(ValidationError::InvalidInput);
            }
            let moved: u8 = row_ptrs[row] + 1;
            row_ptrs[row] = moved;
        }
        row = row + 1;
    }
    assert(row_ptrs@ =~= shifted(rows, y as int));
    Ok(())
}

/// Appends `count` rows of one padding tile each.
fn add_filler_rows(
    row_ptrs: &mut Vec<u8>,
    columns: &mut Vec<u8>,
    values: &mut Vec<u8>,
    pad: u8,
    count: u8,
)
    requires
        old(columns).len() <= MAP_MAX_WIDTH,
    ensures
        final(row_ptrs)@ == old(row_ptrs)@ + filler_starts(
            old(columns).len() as int,
            count as nat,
        ),
        final(columns)@ == old(columns)@ + filler(pad, count as nat),
        final(values)@ == old(values)@ + filler(pad, count as nat),
{
    let ghost rows = row_ptrs@;
    let ghost listed = columns@;
    let ghost held = values@;
    let mut added: u8 = 0;
    while added < count
        invariant
            added <= count,
            listed.len() <= MAP_MAX_WIDTH,
            row_ptrs@ == rows + filler_starts(listed.len() as int, added as nat),
            columns@ == listed + filler(pad, added as nat),
            values@ == held + filler(pad, added as nat),
        decreases count - added,
    {
        row_ptrs.push((columns.len() % 256) as u8);
        columns.push(pad);
        values.push(pad);
        added = added + 1;
        assert(row_ptrs@ =~= rows + filler_starts(listed.len() as int, added as nat));
        assert(columns@ =~= listed + filler(pad, added as nat));
        assert(values@ =~= held + filler(pad, added as nat));
    }
}

/// The lists of a map without their padding: the row starts, the columns
/// and the values.
fn lists_in_use(map: &TileMap) -> (lists: (Vec<u8>, Vec<u8>, Vec<u8>))
    ensures
        lists.0@ == rows_in_use(map@),
        lists.1@ == map@.columns.take(tiles_in_use(map@)),
        lists.2@ == map@.values.take(tiles_in_use(map@)),
        lists.0.len() <= MAP_MAX_HEIGHT,
        lists.1.len() == lists.2.len() <= MAP_MAX_WIDTH,
{
    let pad: u8 = map.compressed_value;
    let rows_used: usize = match find_last_other(map.row_ptrs.as_slice(), pad) {
        Some(last) => last + 1,
        None => MAP_MAX_HEIGHT,
    };
    let row_ptrs: Vec<u8> = copy_of(map.row_ptrs.as_slice(), rows_used);
    let col_size: Option<usize> = find_last_other(map.columns.as_slice(), pad);
    let val_size: Option<usize> = find_last_other(map.values.as_slice(), pad);
    let tiles: usize = match (col_size, val_size) {
        (Some(c), Some(v)) => if c >= v {
            c + 1
        } else {
            v + 1
        },
        (Some(c), None) => c + 1,
        (None, Some(v)) => v + 1,
        (None, None) => MAP_MAX_WIDTH,
    };
    assert(tiles == tiles_in_use(map@));
    let columns: Vec<u8> = copy_of(map.columns.as_slice(), tiles);
    let values: Vec<u8> = copy_of(map.values.as_slice(), tiles);
    (row_ptrs, columns, values)
}

/// Stores the lists in the map, cut or padded to its room, with the new
/// width and height.
fn store(
    map: &mut TileMap,
    row_ptrs: &Vec<u8>,
    columns: &Vec<u8>,
    values: &Vec<u8>,
    width: u8,
    height: u8,
)
    ensures
        final(map)@ == stored(old(map)@, row_ptrs@, columns@, values@, width, height),
{
    let pad: u8 = map.compressed_value;
    map.row_ptrs = stored_rows(row_ptrs, pad);
    map.columns = stored_tiles(columns, pad);
    map.values = stored_tiles(values, pad);
    map.width = width;
    map.height = height;
}

/// Inserts the tile at column `x` into row `y`, at position `at` of the
/// lists.
fn insert_tile(
    map: &mut TileMap,
    row_ptrs: Vec<u8>,
    columns: Vec<u8>,
    values: Vec<u8>,
    at: u8,
    x: u8,
    y: u8,
    new_value: u8,
) -> (r: Result<(), ValidationError>)
    requires
        at <= columns.len() == values.len(),
    ensures
        match inserted(old(map)@, row_ptrs@, columns@, values@, at as int, x, y, new_value) {
            Some(m) => r is Ok && final(map)@ == m,
            None => r == Err::<(), ValidationError>(ValidationError::InvalidInput) && *final(map)
                == *old(map),
        },
{
    let mut row_ptrs = row_ptrs;
    let mut columns = columns;
    let mut values = values;
    columns.insert(at as usize, x);
    values.insert(at as usize, new_value);
    match shift_rows(&mut row_ptrs, y) {
        Ok(()) => {},
        Err(e) => {
            return Err(e);
        },
    }
    let mut new_width: u8 = map.width;
    if x >= new_width {
        if x == 255 {
            return Err(ValidationError::InvalidInput);
        }
        new_width = x + 1;
    }
    let height: u8 = map.height;
    store(map, &row_ptrs, &columns, &values, new_width, height);
    Ok(())
}

/// Appends row `y` with the tile at column `x`.
fn append_tile(
    map: &mut TileMap,
    row_ptrs: Vec<u8>,
    columns: Vec<u8>,
    values: Vec<u8>,
    x: u8,
    y: u8,
    new_value: u8,
) -> (r: Result<(), ValidationError>)
    requires
        columns.len() == values.len() <= MAP_MAX_WIDTH,
    ensures
        match appended(old(map)@, row_ptrs@, columns@, values@, x, y, new_value) {
            Some(m) => r is Ok && final(map)@ == m,
            None => r == Err::<(), ValidationError>(ValidationError::InvalidInput) && *final(map)
                == *old(map),
        },
{
    let mut row_ptrs = row_ptrs;
    let mut columns = columns;
    let mut values = values;
    if x == 255 || y == 255 {
        return Err(ValidationError::InvalidInput);
    }
    let mut new_width: u8 = map.width;
    let mut new_height: u8 = map.height;
    if x + 1 >= new_width {
        new_width = x + 1;
    }
    let count: u8 = if y + 1 > new_height {
        y + 1 - new_height
    } else {
        0
    };
    assert(count == rows_before(map.height, y));
    let pad: u8 = map.compressed_value;
    add_filler_rows(&mut row_ptrs, &mut columns, &mut values, pad, count);
    if y + 1 >= new_height {
        row_ptrs.push((columns.len() % 256) as u8);
        columns.push(x);
        values.push(new_value);
        new_height = y + 1;
    }
    store(map, &row_ptrs, &columns, &values, new_width, new_height);
    Ok(())
}

/// Sets the tile at column `x` of row `y` to `new_value`.
fn put_2(map: &mut TileMap, x: u8, y: u8, new_value: u8) -> (r: Result<(), ValidationError>)
    ensures
        match put_outcome(old(map)@, x, y, new_value) {
            Some(m) => r is Ok && final(map)@ == m,
            None => r == Err::<(), ValidationError>(ValidationError::InvalidInput) && *final(map)
                == *old(map),
        },
{
    let (row_ptrs, columns, values) = lists_in_use(map);
    let found: (Option<u8>, Option<u8>) = match value_ptr(&row_ptrs, &columns, &values, x, y) {
        Ok(found) => found,
        Err(e) => {
            return Err(e);
        },
    };
    match found {
        (Some(at), _) => {
            let mut values = values;
            values[at as usize] = new_value;
            let width: u8 = map.width;
            let height: u8 = map.height;
            proof {
                let m = old(map)@;
                storing_the_lists_in_use_changes_nothing(m);
                let tiles = tiles_in_use(m);
                assert(padded(
                    m.values.take(tiles).update(at as int, new_value),
                    m.compressed_value,
                    MAP_MAX_WIDTH as nat,
                ) =~= padded(
                    m.values.take(tiles),
                    m.compressed_value,
                    MAP_MAX_WIDTH as nat,
                ).update(at as int, new_value));
            }
            store(map, &row_ptrs, &columns, &values, width, height);
            Ok(())
        },
        (None, Some(at)) => insert_tile(map, row_ptrs, columns, values, at, x, y, new_value),
        (None, None) => append_tile(map, row_ptrs, columns, values, x, y, new_value),
    }
}

/// Creates the map that every game starts with. Tiles that are not listed
/// have the value `compressed_value`.
pub fn init(owner: Id, compressed_value: u8) -> (map: TileMap)
    ensures
        map@ == initial_map(owner, compressed_value),
{
    let map = TileMap {
        owner,
        row_ptrs: [0, 2, 4, 8, 0, 0, 0, 0, 0, 0],
        columns: [2, 3, 1, 2, 0, 1, 2, 5, 1, 2, 3, 4, 5, 0, 0, 0, 0, 0, 0, 0],
        values: [3, 1, 2, 1, 4, 2, 1, 3, 5, 1, 4, 2, 1, 0, 0, 0, 0, 0, 0, 0],
        width: 6,
        height: 5,
        compressed_value,
    };
    assert(map.row_ptrs@ =~= initial_map(owner, compressed_value).row_ptrs);
    assert(map.columns@ =~= initial_map(owner, compressed_value).columns);
    assert(map.values@ =~= initial_map(owner, compressed_value).values);
    map
}

/// Sets the tile at column `x` of row `y` to `num`. A map whose lists
/// cannot take the tile stays as it is.
pub fn put(map: &mut TileMap, x: u8, y: u8, num: u8) -> (r: Result<(), ValidationError>)
    ensures
        match put_outcome(old(map)@, x, y, num) {
            Some(m) => r is Ok && final(map)@ == m,
            None => r == Err::<(), ValidationError>(ValidationError::InvalidInput) && *final(map)
                == *old(map),
        },
{
    put_2(map, x, y, num)
}

/// Sets the tile at column `x` of row `y` back to the value of a tile
/// that is not listed.
pub fn clear(map: &mut TileMap, x: u8, y: u8) -> (r: Result<(), ValidationError>)
    ensures
        match put_outcome(old(map)@, x, y, old(map).compressed_value) {
            Some(m) => r is Ok && final(map)@ == m,
            None => r == Err::<(), ValidationError>(ValidationError::InvalidInput) && *final(map)
                == *old(map),
        },
{
    let pad: u8 = map.compressed_value;
    put_2(map, x, y, pad)
}

} // verus!
