//! Rank/file coordinates for the 32 playing squares.

use vstd::prelude::*;

verus! {

/// A square named by rank and file. The first rank is rank 0; the a file is
/// file 0. Only squares whose rank and file have equal parity are playing
/// squares.
#[derive(Copy, Clone, Debug, PartialEq, Eq, Hash, Structural)]
pub struct SquareCoordinate {
    pub rank: u8,
    pub file: u8,
}

impl SquareCoordinate {
    /// The coordinate of each square value, as a fixed table.
    pub open spec fn spec_from_value(value: int) -> SquareCoordinate
        recommends
            0 <= value < 32,
    {
        let rank: u8 = if value == 0 { 0u8 } else if value == 1 { 1u8 } else if value == 2 {
            4u8
        } else if value == 3 { 5u8 } else if value == 4 { 6u8 } else if value == 5 { 7u8 }
        else if value == 6 { 0u8 } else if value == 7 { 1u8 } else if value == 8 { 2u8 }
        else if value == 9 { 3u8 } else if value == 10 { 6u8 } else if value == 11 { 7u8 }
        else if value == 12 { 0u8 } else if value == 13 { 1u8 } else if value == 14 { 2u8 }
        else if value == 15 { 3u8 } else if value == 16 { 4u8 } else if value == 17 { 5u8 }
        else if value == 18 { 0u8 } else if value == 19 { 1u8 } else if value == 20 { 2u8 }
        else if value == 21 { 3u8 } else if value == 22 { 4u8 } else if value == 23 { 5u8 }
        else if value == 24 { 6u8 } else if value == 25 { 7u8 } else if value == 26 { 2u8 }
        else if value == 27 { 3u8 } else if value == 28 { 4u8 } else if value == 29 { 5u8 }
        else if value == 30 { 6u8 } else { 7u8 };
        let file: u8 = if value == 0 { 6u8 } else if value == 1 { 7u8 } else if value == 2 {
            0u8
        } else if value == 3 { 1u8 } else if value == 4 { 2u8 } else if value == 5 { 3u8 }
        else if value == 6 { 4u8 } else if value == 7 { 5u8 } else if value == 8 { 6u8 }
        else if value == 9 { 7u8 } else if value == 10 { 0u8 } else if value == 11 { 1u8 }
        else if value == 12 { 2u8 } else if value == 13 { 3u8 } else if value == 14 { 4u8 }
        else if value == 15 { 5u8 } else if value == 16 { 6u8 } else if value == 17 { 7u8 }
        else if value == 18 { 0u8 } else if value == 19 { 1u8 } else if value == 20 { 2u8 }
        else if value == 21 { 3u8 } else if value == 22 { 4u8 } else if value == 23 { 5u8 }
        else if value == 24 { 6u8 } else if value == 25 { 7u8 } else if value == 26 { 0u8 }
        else if value == 27 { 1u8 } else if value == 28 { 2u8 } else if value == 29 { 3u8 }
        else if value == 30 { 4u8 } else { 5u8 };
        SquareCoordinate { rank, file }
    }

    /// The square value of a rank/file pair, or `None` when the ranks and
    /// files have different parity (a non-playing square).
    pub open spec fn spec_to_value(rank: u8, file: u8) -> Option<usize>
        recommends
            rank < 8,
            file < 8,
    {
        if rank % 2 == 0 {
            if file % 2 == 0 {
                Some((((18 + (rank / 2) * 8) - (file / 2) * 6) % 32) as usize)
            } else {
                None
            }
        } else if file % 2 == 1 {
            let column_value: u8 = if file == 1 { 19u8 } else if file == 3 { 13u8 }
            else if file == 5 { 7u8 } else { 1u8 };
            let row_value: u8 = if rank == 1 { 0u8 } else if rank == 3 { 8u8 }
            else if rank == 5 { 16u8 } else { 24u8 };
            Some(((column_value + row_value) % 32) as usize)
        } else {
            None
        }
    }

    /// Creates a coordinate.
    pub fn new(rank: u8, file: u8) -> (r: Self)
        requires
            rank <= 32,
            file <= 32,
        ensures
            r == (SquareCoordinate { rank, file }),
    {
        Self { rank, file }
    }

    /// The coordinate of a square value.
    pub fn from_value(value: usize) -> (r: Self)
        requires
            value < 32,
        ensures
            r == Self::spec_from_value(value as int),
    {
        let rank: u8 = match value {
            0 => 0,
            1 => 1,
            2 => 4,
            3 => 5,
            4 => 6,
            5 => 7,
            6 => 0,
            7 => 1,
            8 => 2,
            9 => 3,
            10 => 6,
            11 => 7,
            12 => 0,
            13 => 1,
            14 => 2,
            15 => 3,
            16 => 4,
            17 => 5,
            18 => 0,
            19 => 1,
            20 => 2,
            21 => 3,
            22 => 4,
            23 => 5,
            24 => 6,
            25 => 7,
            26 => 2,
            27 => 3,
            28 => 4,
            29 => 5,
            30 => 6,
            _ => 7,
        };
        let file: u8 = match value {
            0 => 6,
            1 => 7,
            2 => 0,
            3 => 1,
            4 => 2,
            5 => 3,
            6 => 4,
            7 => 5,
            8 => 6,
            9 => 7,
            10 => 0,
            11 => 1,
            12 => 2,
            13 => 3,
            14 => 4,
            15 => 5,
            16 => 6,
            17 => 7,
            18 => 0,
            19 => 1,
            20 => 2,
            21 => 3,
            22 => 4,
            23 => 5,
            24 => 6,
            25 => 7,
            26 => 0,
            27 => 1,
            28 => 2,
            29 => 3,
            30 => 4,
            _ => 5,
        };
        Self { rank, file }
    }

    /// The rank.
    pub fn rank(self) -> (r: u8)
        ensures
            r == self.rank,
    {
        self.rank
    }

    /// The file.
    pub fn file(self) -> (r: u8)
        ensures
            r == self.file,
    {
        self.file
    }

    /// The square value of this coordinate, or `None` when it is not a
    /// playing square.
    pub fn to_value(self) -> (r: Option<usize>)
        requires
            self.rank < 8,
            self.file < 8,
        ensures
            r == Self::spec_to_value(self.rank, self.file),
            r matches Some(v) ==> v < 32,
    {
        if self.rank % 2 == 0 {
            if self.file % 2 == 0 {
                Some((((18 + (self.rank / 2) * 8) - (self.file / 2) * 6) % 32) as usize)
            } else {
                None
            }
        } else if self.file % 2 == 1 {
            let column_value: u8 = match self.file {
                1 => 19,
                3 => 13,
                5 => 7,
                _ => 1,
            };
            let row_value: u8 = match self.rank {
                1 => 0,
                3 => 8,
                5 => 16,
                _ => 24,
            };
            Some(((column_value + row_value) % 32) as usize)
        } else {
            None
        }
    }
}

} // verus!
