use vstd::prelude::*;

use crate::piece::Piece;

verus! {

/// An 8 by 8 grid of pieces, indexed `[row][file]`: row 0 is White's home
/// rank, row 7 Black's, and file 0 is the a-file.
pub struct Board {
    spaces: [[Piece; 8]; 8],
}

/// The piece that the standard starting position puts on a back rank's file.
pub open spec fn back_rank_kind(file: int) -> Piece {
    if file == 0 || file == 7 {
        Piece::Rook
    } else if file == 1 || file == 6 {
        Piece::Knight
    } else if file == 2 || file == 5 {
        Piece::Bishop
    } else if file == 3 {
        Piece::Queen
    } else {
        Piece::King
    }
}

/// The content of a cell in the standard starting position.
pub open spec fn standard_cell(row: int, file: int) -> Piece {
    if row == 0 {
        Piece::colored(Piece::White, back_rank_kind(file))
    } else if row == 1 {
        Piece::WhitePawn
    } else if row == 6 {
        Piece::BlackPawn
    } else if row == 7 {
        Piece::colored(Piece::Black, back_rank_kind(file))
    } else {
        Piece::Empty
    }
}

/// How many characters wide a horizontal rule is: 8 cells of 4 characters
/// and the leading bar.
pub const RULE_WIDTH: usize = 33;

/// The character of a horizontal rule.
pub open spec fn dash() -> char {
    '\u{2014}'
}

/// The character between cells.
pub open spec fn bar() -> char {
    '\u{2502}'
}

/// A horizontal rule and its line break.
pub open spec fn rule_line() -> Seq<char> {
    Seq::new(RULE_WIDTH as nat, |i: int| dash()).push('\n')
}

/// The first `n` cells of a rank, each a space, its piece's character, a
/// space and a bar.
pub open spec fn cells_text(rank: Seq<Piece>, n: nat) -> Seq<char>
    decreases n,
{
    if n == 0 {
        Seq::empty()
    } else {
        cells_text(rank, (n - 1) as nat) + seq![' ', rank[n - 1].glyph(), ' ', bar()]
    }
}

/// The line that shows a rank: a leading bar, its cells, and a line break.
pub open spec fn rank_line(rank: Seq<Piece>) -> Seq<char> {
    seq![bar()] + cells_text(rank, rank.len()) + seq!['\n']
}

/// The lines of the top `n` ranks, from the last rank down, each followed by
/// a rule.
pub open spec fn ranks_text(ranks: Seq<Seq<Piece>>, n: nat) -> Seq<char>
    decreases n,
{
    if n == 0 {
        Seq::empty()
    } else {
        ranks_text(ranks, (n - 1) as nat) + rank_line(ranks[ranks.len() - n]) + rule_line()
    }
}

/// The drawing of a grid: a rule, then each rank from the last to the first,
/// each followed by a rule.
pub open spec fn board_text(ranks: Seq<Seq<Piece>>) -> Seq<char> {
    rule_line() + ranks_text(ranks, ranks.len())
}

/// Appends a horizontal rule and a line break.
fn push_rule(out: &mut String)
    ensures
        final(out)@ == old(out)@ + rule_line(),
{
    proof {
        reveal_strlit("\u{2014}");
        reveal_strlit("\n");
    }
    let ghost start = out@;
    for i in 0..RULE_WIDTH
        invariant
            out@ == start + Seq::new(i as nat, |j: int| dash()),
    {
        proof {
            reveal_strlit("\u{2014}");
        }
        out.append("\u{2014}");
        assert(out@ =~= start + Seq::new((i + 1) as nat, |j: int| dash()));
    }
    out.append("\n");
    assert(out@ =~= start + rule_line());
}

impl View for Board {
    type V = Seq<Seq<Piece>>;

    closed spec fn view(&self) -> Seq<Seq<Piece>> {
        Seq::new(8, |r: int| self.spaces@[r]@)
    }
}

impl Board {
    /// Every cell holds nothing or a piece of some kind and color.
    pub open spec fn wf(&self) -> bool {
        forall|r: int, f: int| 0 <= r < 8 && 0 <= f < 8 ==> (#[trigger] self@[r][f]).is_placeable()
    }

    /// The board in the standard starting position.
    pub fn default() -> (b: Board)
        ensures
            b@.len() == 8,
            forall|r: int| 0 <= r < 8 ==> (#[trigger] b@[r]).len() == 8,
            forall|r: int, f: int| 0 <= r < 8 && 0 <= f < 8 ==> #[trigger] b@[r][f] == standard_cell(r, f),
            b.wf(),
    {
        let mut spaces: [[Piece; 8]; 8] = [[Piece::Empty; 8]; 8];

        spaces[0][0] = Piece::WhiteRook;
        spaces[0][1] = Piece::WhiteKnight;
        spaces[0][2] = Piece::WhiteBishop;
        spaces[0][3] = Piece::WhiteQueen;
        spaces[0][4] = Piece::WhiteKing;
        spaces[0][5] = Piece::WhiteBishop;
        spaces[0][6] = Piece::WhiteKnight;
        spaces[0][7] = Piece::WhiteRook;

        spaces[7][0] = Piece::BlackRook;
        spaces[7][1] = Piece::BlackKnight;
        spaces[7][2] = Piece::BlackBishop;
        spaces[7][3] = Piece::BlackQueen;
        spaces[7][4] = Piece::BlackKing;
        spaces[7][5] = Piece::BlackBishop;
        spaces[7][6] = Piece::BlackKnight;
        spaces[7][7] = Piece::BlackRook;

        for i in 0..8
            invariant
                forall|r: int, f: int| 0 <= r < 8 && 0 <= f < 8 ==>
                    #[trigger] spaces@[r]@[f] == if (r == 1 || r == 6) && f >= i {
                        Piece::Empty
                    } else {
                        standard_cell(r, f)
                    },
        {
            spaces[1][i] = Piece::WhitePawn;
            spaces[6][i] = Piece::BlackPawn;
        }
        Board { spaces: spaces }
    }

    /// The piece on the given row and file.
    pub fn get(&self, row: usize, file: usize) -> (r: Piece)
        requires
            row < 8,
            file < 8,
        ensures
            r == self@[row as int][file as int],
    {
        self.spaces[row][file]
    }

    /// Draws the board: rank 7 on top and rank 0 at the bottom, each rank a
    /// line of cells between bars, with a horizontal rule above the first
    /// rank and below every rank.
    pub fn to_string(&self) -> (r: String)
        ensures
            r@ == board_text(self@),
    {
        let mut output = String::new();
        push_rule(&mut output);
        for k in 0..8
            invariant
                output@ == rule_line() + ranks_text(self@, k as nat),
        {
            proof {
                reveal_strlit("\u{2502}");
                reveal_strlit("\n");
            }
            let row: usize = 7 - k;
            let ghost before = output@;
            output.append("\u{2502}");
            assert(output@ =~= before + seq![bar()] + cells_text(self@[row as int], 0));
            for f in 0..8
                invariant
                    row == 7 - k,
                    output@ == before + seq![bar()] + cells_text(self@[row as int], f as nat),
            {
                proof {
                    reveal_strlit(" ");
                    reveal_strlit(" \u{2502}");
                }
                output.append(" ");
                output.append(self.spaces[row][f].to_str());
                output.append(" \u{2502}");
                assert(output@ =~= before + seq![bar()] + cells_text(self@[row as int], (f + 1) as nat));
            }
            output.append("\n");
            assert(output@ =~= before + rank_line(self@[row as int]));
            push_rule(&mut output);
            assert(output@ =~= rule_line() + ranks_text(self@, (k + 1) as nat));
        }
        output
    }
}

} // verus!
