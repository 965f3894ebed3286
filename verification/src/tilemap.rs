//! The level grid: its text format, the tiles it places, and the bodies
//! that the tiles contribute to the simulation.
//!
//! A level is a text of rows, one per line. A row is a list of cells
//! separated by commas. A cell that holds a decimal number, with blanks
//! around it at most, places the tile of that number; any other cell is
//! empty. Rows may differ in length.

use crate::collision::{clamp, Body, Collider, Vector2};
use crate::level::{Despawnable, LevelIndex};
use vstd::prelude::*;

verus! {

/// Extent of a tile along both axes, in sub-units.
pub const TILE_SIZE: u32 = 160;

/// Extent of a goal's sensor along both axes.
pub const GOAL_COLLIDER_SIZE: u32 = 10;

/// World position of the cell in column 0 of row 0.
pub const ORIGIN_X: i64 = -640;

pub const ORIGIN_Y: i64 = 480;

/// Layer of the tiles that no skin passes through.
pub const NEUTRAL_LAYER: u8 = 0b001;

/// Layer of the blue tiles.
pub const BLUE_LAYER: u8 = 0b010;

/// Layer of the yellow tiles.
pub const YELLOW_LAYER: u8 = 0b100;

pub const COMMA: u8 = 0x2c;

pub const NEWLINE: u8 = 0x0a;

/// The tile numbers that are yellow.
pub open spec fn is_yellow(index: u64) -> bool {
    index == 9
}

/// The tile numbers that are blue.
pub open spec fn is_blue(index: u64) -> bool {
    93 <= index <= 95 || 113 <= index <= 115 || 132 <= index <= 135
}

/// The tile numbers that show a door. A door is the goal of its level.
pub open spec fn is_door(index: u64) -> bool {
    index == 110 || index == 130
}

/// The layer that a tile number lives on.
pub open spec fn layer_of(index: u64) -> u8 {
    if is_yellow(index) {
        YELLOW_LAYER
    } else if is_blue(index) {
        BLUE_LAYER
    } else {
        NEUTRAL_LAYER
    }
}

/// A tile placed in the grid.
#[derive(Clone, Copy, Debug, PartialEq, Eq, Structural)]
pub struct Tile {
    pub column: usize,
    pub row: usize,
    /// Number of the tile in the sprite sheet.
    pub index: u64,
    pub layer_mask: u8,
    /// Set for a goal.
    pub is_trigger: bool,
}

impl Tile {
    /// The tile that the number `index` places in a cell.
    pub open spec fn at(column: nat, row: nat, index: u64) -> Tile {
        Tile {
            column: column as usize,
            row: row as usize,
            index,
            layer_mask: layer_of(index),
            is_trigger: is_door(index),
        }
    }

    /// Centre of the tile in the world: columns run to the right and rows
    /// run downwards from the origin of the grid, a tile apart.
    pub open spec fn world_position(self) -> Vector2 {
        Vector2 {
            x: clamp(ORIGIN_X + self.column * TILE_SIZE),
            y: clamp(ORIGIN_Y - self.row * TILE_SIZE),
        }
    }

    /// A solid tile fills its cell; a goal senses a small spot in the
    /// middle of it.
    pub open spec fn shape(self) -> Collider {
        Collider {
            width: if self.is_trigger { GOAL_COLLIDER_SIZE } else { TILE_SIZE },
            height: if self.is_trigger { GOAL_COLLIDER_SIZE } else { TILE_SIZE },
            layer_mask: self.layer_mask,
            is_trigger: self.is_trigger,
        }
    }

    /// The tile as a body of the simulation.
    pub open spec fn as_body(self) -> Body {
        Body { position: self.world_position(), collider: self.shape() }
    }

    pub fn new(column: usize, row: usize, index: u64) -> (tile: Tile)
        ensures
            tile == Tile::at(column as nat, row as nat, index),
    {
        let layer_mask = if index == 9 {
            YELLOW_LAYER
        } else if (93 <= index && index <= 95) || (113 <= index && index <= 115) || (132 <= index && index <= 135) {
            BLUE_LAYER
        } else {
            NEUTRAL_LAYER
        };
        Tile { column, row, index, layer_mask, is_trigger: index == 110 || index == 130 }
    }

    pub fn position(&self) -> (center: Vector2)
        ensures
            center == self.world_position(),
    {
        let x: i128 = (ORIGIN_X as i128) + (self.column as i128) * (TILE_SIZE as i128);
        let y: i128 = (ORIGIN_Y as i128) - (self.row as i128) * (TILE_SIZE as i128);
        Vector2 { x: nearest_coordinate(x), y: nearest_coordinate(y) }
    }

    pub fn collider(&self) -> (shape: Collider)
        ensures
            shape == self.shape(),
            shape.wf(),
    {
        let size = if self.is_trigger { GOAL_COLLIDER_SIZE } else { TILE_SIZE };
        Collider { width: size, height: size, layer_mask: self.layer_mask, is_trigger: self.is_trigger }
    }

    pub fn body(&self) -> (body: Body)
        ensures
            body == self.as_body(),
    {
        Body { position: self.position(), collider: self.collider() }
    }
}

/// The coordinate nearest to `v`.
fn nearest_coordinate(v: i128) -> (c: i64)
    ensures
        c == clamp(v as int),
{
    if v < i64::MIN as i128 {
        i64::MIN
    } else if v > i64::MAX as i128 {
        i64::MAX
    } else {
        v as i64
    }
}

/// Blanks are the white space of ASCII: space, tab, line feed, vertical
/// tab, form feed and carriage return.
pub open spec fn is_blank(byte: u8) -> bool {
    byte == 0x20 || (0x09 <= byte <= 0x0d)
}

pub open spec fn is_digit(byte: u8) -> bool {
    0x30 <= byte <= 0x39
}

/// A cell ends before a comma, before the end of its line, and at the end
/// of the text.
pub open spec fn is_separator(byte: u8) -> bool {
    byte == COMMA || byte == NEWLINE
}

/// `token` without the blanks at its two ends.
pub open spec fn trimmed(token: Seq<u8>) -> Seq<u8>
    decreases token.len(),
{
    if token.len() > 0 && is_blank(token.first()) {
        trimmed(token.drop_first())
    } else if token.len() > 0 && is_blank(token.last()) {
        trimmed(token.drop_last())
    } else {
        token
    }
}

/// The number that decimal `digits` write; a byte that is no digit
/// counts as zero.
pub open spec fn decimal(digits: Seq<u8>) -> nat
    decreases digits.len(),
{
    if digits.len() == 0 {
        0
    } else {
        let unit: nat = if is_digit(digits.last()) { (digits.last() - 0x30) as nat } else { 0 };
        decimal(digits.drop_last()) * 10 + unit
    }
}

/// The digits of a trimmed cell: an optional plus sign goes before them.
pub open spec fn unsigned(token: Seq<u8>) -> Seq<u8> {
    if token.len() > 0 && token.first() == 0x2b {
        token.drop_first()
    } else {
        token
    }
}

/// The tile number that a cell holds: after trimming and an optional
/// plus sign, one or more decimal digits whose number fits `u64`.
/// Any other cell is empty.
pub open spec fn tile_index(cell: Seq<u8>) -> Option<u64> {
    let digits = unsigned(trimmed(cell));
    if digits.len() > 0 && (forall|i: int| 0 <= i < digits.len() ==> is_digit(#[trigger] digits[i])) && decimal(digits) <= u64::MAX {
        Some(decimal(digits) as u64)
    } else {
        None
    }
}

/// Length of the cell that starts at `pos`.
pub open spec fn cell_len(text: Seq<u8>, pos: int) -> nat
    decreases text.len() - pos,
{
    if pos < 0 || pos >= text.len() || is_separator(text[pos]) {
        0
    } else {
        1 + cell_len(text, pos + 1)
    }
}

/// The tiles of the cells from the one that starts at `pos`, which lies
/// in the given column and row, to the end of the text, in reading order.
pub open spec fn tiles_from(text: Seq<u8>, pos: int, column: nat, row: nat) -> Seq<Tile>
    decreases text.len() - pos,
{
    if pos < 0 || pos > text.len() {
        Seq::empty()
    } else {
        let end = pos + cell_len(text, pos);
        let here = match tile_index(text.subrange(pos, end)) {
            Some(index) => seq![Tile::at(column, row, index)],
            None => Seq::empty(),
        };
        if end >= text.len() {
            here
        } else if text[end] == COMMA {
            here + tiles_from(text, end + 1, column + 1, row)
        } else {
            here + tiles_from(text, end + 1, 0, row + 1)
        }
    }
}

/// The tiles that a level text places, in reading order.
pub open spec fn level_tiles(text: Seq<u8>) -> Seq<Tile> {
    tiles_from(text, 0, 0, 0)
}

/// The layer and the trigger flag of `tile` are those of its number.
pub open spec fn classified(tile: Tile) -> bool {
    tile.layer_mask == layer_of(tile.index) && tile.is_trigger == is_door(tile.index)
}

/// Every tile that a level text places has the layer and the trigger
/// flag that go with its number, so that the goals of a level are its
/// doors.
pub proof fn lemma_tiles_classified(text: Seq<u8>, pos: int, column: nat, row: nat)
    ensures
        forall|i: int|
            0 <= i < tiles_from(text, pos, column, row).len() ==> classified(
                #[trigger] tiles_from(text, pos, column, row)[i],
            ),
    decreases text.len() - pos,
{
    if 0 <= pos <= text.len() {
        let end = pos + cell_len(text, pos);
        let tiles = tiles_from(text, pos, column, row);
        let here = match tile_index(text.subrange(pos, end)) {
            Some(index) => seq![Tile::at(column, row, index)],
            None => Seq::empty(),
        };
        if end < text.len() {
            let rest = if text[end] == COMMA {
                lemma_tiles_classified(text, end + 1, column + 1, row);
                tiles_from(text, end + 1, column + 1, row)
            } else {
                lemma_tiles_classified(text, end + 1, 0, row + 1);
                tiles_from(text, end + 1, 0, row + 1)
            };
            assert(tiles == here + rest);
            assert forall|i: int| 0 <= i < tiles.len() implies classified(#[trigger] tiles[i]) by {
                if i >= here.len() {
                    assert(tiles[i] == rest[i - here.len()]);
                }
            }
        }
    }
}

proof fn lemma_cell_len_bound(text: Seq<u8>, pos: int)
    requires
        0 <= pos <= text.len(),
    ensures
        pos + cell_len(text, pos) <= text.len(),
        pos + cell_len(text, pos) < text.len() ==> is_separator(text[pos + cell_len(text, pos)]),
        forall|i: int| pos <= i < pos + cell_len(text, pos) ==> !is_separator(#[trigger] text[i]),
    decreases text.len() - pos,
{
    if pos < text.len() && !is_separator(text[pos]) {
        lemma_cell_len_bound(text, pos + 1);
    }
}

proof fn lemma_cell_len_step(text: Seq<u8>, pos: int, end: int)
    requires
        0 <= pos <= end <= text.len(),
        forall|i: int| pos <= i < end ==> !is_separator(#[trigger] text[i]),
    ensures
        pos + cell_len(text, pos) == end + cell_len(text, end),
    decreases end - pos,
{
    if pos < end {
        lemma_cell_len_step(text, pos + 1, end);
    }
}

proof fn lemma_decimal_grows(digits: Seq<u8>, k: int)
    requires
        0 <= k <= digits.len(),
    ensures
        decimal(digits.take(k)) <= decimal(digits),
    decreases digits.len() - k,
{
    if k < digits.len() {
        lemma_decimal_grows(digits, k + 1);
        assert(digits.take(k + 1).drop_last() =~= digits.take(k));
    } else {
        assert(digits.take(k) =~= digits);
    }
}

/// End of the cell that starts at `pos`.
fn find_cell_end(text: &[u8], pos: usize) -> (end: usize)
    requires
        pos <= text.len(),
    ensures
        end == pos + cell_len(text@, pos as int),
        end <= text.len(),
{
    let mut end: usize = pos;
    while end < text.len() && text[end] != COMMA && text[end] != NEWLINE
        invariant
            pos <= end <= text.len(),
            forall|i: int| pos <= i < end ==> !is_separator(#[trigger] text@[i]),
        decreases text.len() - end,
    {
        end += 1;
    }
    proof {
        lemma_cell_len_step(text@, pos as int, end as int);
        lemma_cell_len_bound(text@, end as int);
    }
    end
}

fn blank(byte: u8) -> (b: bool)
    ensures
        b == is_blank(byte),
{
    byte == 0x20 || (0x09 <= byte && byte <= 0x0d)
}

/// Reads the tile number of the cell `text[start..end]`.
fn read_cell(text: &[u8], start: usize, end: usize) -> (index: Option<u64>)
    requires
        start <= end <= text.len(),
    ensures
        index == tile_index(text@.subrange(start as int, end as int)),
{
    let ghost cell = text@.subrange(start as int, end as int);
    let mut a: usize = start;
    while a < end && blank(text[a])
        invariant
            start <= a <= end <= text.len(),
            trimmed(cell) == trimmed(text@.subrange(a as int, end as int)),
        decreases end - a,
    {
        assert(text@.subrange(a as int, end as int).drop_first() =~= text@.subrange(a + 1, end as int));
        a += 1;
    }
    let mut b: usize = end;
    while b > a && blank(text[b - 1])
        invariant
            a <= b <= end <= text.len(),
            a < end ==> !is_blank(text@[a as int]),
            a == end ==> b == a,
            trimmed(cell) == trimmed(text@.subrange(a as int, b as int)),
        decreases b - a,
    {
        assert(text@.subrange(a as int, b as int).drop_last() =~= text@.subrange(a as int, b - 1));
        b -= 1;
    }
    let ghost token = text@.subrange(a as int, b as int);
    assert(trimmed(cell) == token);
    let first: usize = if a < b && text[a] == 0x2b { a + 1 } else { a };
    let ghost digits = text@.subrange(first as int, b as int);
    assert(unsigned(token) =~= digits);
    if first == b {
        return None;
    }
    let mut value: u64 = 0;
    let mut i: usize = first;
    while i < b
        invariant
            first <= i <= b <= text.len(),
            digits == text@.subrange(first as int, b as int),
            digits == unsigned(trimmed(text@.subrange(start as int, end as int))),
            digits.len() > 0,
            forall|j: int| 0 <= j < i - first ==> is_digit(#[trigger] digits[j]),
            value == decimal(digits.take(i - first)),
        decreases b - i,
    {
        let byte = text[i];
        assert(digits[i - first] == byte);
        if byte < 0x30 || byte > 0x39 {
            return None;
        }
        proof {
            assert(digits.take(i - first + 1).drop_last() =~= digits.take(i - first));
            lemma_decimal_grows(digits, i - first + 1);
        }
        let unit: u64 = (byte - 0x30) as u64;
        assert(decimal(digits.take(i - first + 1)) == value * 10 + unit);
        if value > (u64::MAX - unit) / 10 {
            return None;
        }
        value = value * 10 + unit;
        i += 1;
    }
    assert(digits.take(b - first) =~= digits);
    Some(value)
}

/// Reads a level text into the tiles that it places.
pub fn parse_level(text: &[u8]) -> (tiles: Vec<Tile>)
    ensures
        tiles@ == level_tiles(text@),
{
    let mut tiles: Vec<Tile> = Vec::new();
    let mut pos: usize = 0;
    let mut column: usize = 0;
    let mut row: usize = 0;
    let mut done = false;
    assert(tiles@ + level_tiles(text@) =~= level_tiles(text@));
    while !done
        invariant
            pos <= text.len(),
            column <= pos,
            row <= pos,
            !done ==> level_tiles(text@) == tiles@ + tiles_from(text@, pos as int, column as nat, row as nat),
            done ==> level_tiles(text@) == tiles@,
        decreases (if done { 0 } else { text.len() - pos + 1 }),
    {
        let end = find_cell_end(text, pos);
        let ghost before = tiles@;
        let ghost rest = tiles_from(text@, pos as int, column as nat, row as nat);
        match read_cell(text, pos, end) {
            Some(index) => {
                tiles.push(Tile::new(column, row, index));
            },
            None => {},
        }
        if end == text.len() {
            assert(tiles@ =~= before + rest);
            done = true;
        } else {
            let (next_column, next_row) = if text[end] == COMMA {
                (column + 1, row)
            } else {
                (0, row + 1)
            };
            assert(before + rest =~= tiles@ + tiles_from(text@, end + 1, next_column as nat, next_row as nat));
            column = next_column;
            row = next_row;
            pos = end + 1;
        }
    }
    tiles
}

/// The geometry of the level that is being played.
#[derive(Debug)]
pub struct Tilemap {
    pub tiles: Vec<Tile>,
}

/// Why a level could not be loaded.
#[derive(Clone, Copy, Debug, PartialEq, Eq, Structural)]
pub enum LoadError {
    /// There is no text for the level of this number.
    NoLevelFound { index: u8 },
}

impl LoadError {
    pub fn message(&self) -> (text: &'static str)
        ensures
            text@ == "No level found"@,
    {
        "No level found"
    }
}

/// The goals among `tiles`, as bodies and in order.
pub open spec fn goal_bodies(tiles: Seq<Tile>) -> Seq<Body> {
    tiles.filter(|tile: Tile| tile.is_trigger).map_values(|tile: Tile| tile.as_body())
}

impl Tilemap {
    /// The bodies of all tiles, in order.
    pub open spec fn bodies(self) -> Seq<Body> {
        self.tiles@.map_values(|tile: Tile| tile.as_body())
    }

    /// The bodies of the goals, in order.
    pub open spec fn goal_seq(self) -> Seq<Body> {
        goal_bodies(self.tiles@)
    }

    pub fn new() -> (map: Tilemap)
        ensures
            map.tiles@ == Seq::<Tile>::empty(),
    {
        Tilemap { tiles: Vec::new() }
    }

    /// The level is torn down as a whole, tiles included.
    pub fn despawnable(&self) -> (tag: Despawnable)
        ensures
            tag.has_children,
    {
        Despawnable::with_children(true)
    }

    /// Tears the level down: no tile is left.
    pub fn clear(&mut self)
        ensures
            final(self).tiles@ == Seq::<Tile>::empty(),
    {
        self.tiles = Vec::new();
    }

    /// The bodies that the player is checked against: those of all tiles.
    pub fn colliders(&self) -> (bodies: Vec<Body>)
        ensures
            bodies@ == self.bodies(),
    {
        let mut bodies: Vec<Body> = Vec::new();
        let mut i: usize = 0;
        while i < self.tiles.len()
            invariant
                i <= self.tiles.len(),
                bodies@ == self.tiles@.take(i as int).map_values(|tile: Tile| tile.as_body()),
            decreases self.tiles.len() - i,
        {
            bodies.push(self.tiles[i].body());
            assert(bodies@ =~= self.tiles@.take(i + 1).map_values(|tile: Tile| tile.as_body()));
            i += 1;
        }
        assert(self.tiles@.take(i as int) =~= self.tiles@);
        bodies
    }

    /// The bodies of the goals of the level.
    pub fn goals(&self) -> (bodies: Vec<Body>)
        ensures
            bodies@ == self.goal_seq(),
    {
        let mut bodies: Vec<Body> = Vec::new();
        let mut i: usize = 0;
        proof {
            reveal(Seq::filter);
            assert(goal_bodies(self.tiles@.take(0)) =~= Seq::<Body>::empty());
        }
        while i < self.tiles.len()
            invariant
                i <= self.tiles.len(),
                bodies@ == goal_bodies(self.tiles@.take(i as int)),
            decreases self.tiles.len() - i,
        {
            let tile = self.tiles[i];
            proof {
                reveal(Seq::filter);
                assert(self.tiles@.take(i + 1).drop_last() =~= self.tiles@.take(i as int));
                assert(self.tiles@.take(i + 1).last() == tile);
            }
            if tile.is_trigger {
                bodies.push(tile.body());
                assert(bodies@ =~= goal_bodies(self.tiles@.take(i + 1)));
            }
            i += 1;
        }
        assert(self.tiles@.take(i as int) =~= self.tiles@);
        bodies
    }
}

/// Builds the geometry of the level that `level_index` names from its
/// text in `levels`. Fails where `levels` holds no text of that number.
pub fn load_level(levels: &Vec<Vec<u8>>, level_index: &LevelIndex) -> (loaded: Result<Tilemap, LoadError>)
    ensures
        level_index.0 < levels.len() ==> loaded is Ok && loaded->Ok_0.tiles@ == level_tiles(
            levels@[level_index.0 as int]@,
        ),
        level_index.0 >= levels.len() ==> loaded == Err::<Tilemap, LoadError>(
            LoadError::NoLevelFound { index: level_index.0 },
        ),
{
    let wanted = level_index.0 as usize;
    if wanted >= levels.len() {
        return Err(LoadError::NoLevelFound { index: level_index.0 });
    }
    let tiles = parse_level(levels[wanted].as_slice());
    Ok(Tilemap { tiles })
}

} // verus!
