use vstd::prelude::*;

verus! {

/// A chess piece, or the absence of one, encoded as a small integer.
///
/// The low three bits of the code hold the kind (`Empty` = 0, `Pawn` = 1 up to
/// `King` = 6) and bits 3 and 4 hold the color (`Black` = 0b01000,
/// `White` = 0b10000). A colored piece's code is its kind's code OR its
/// color's code. The bare kinds and the bare colors are values too: they are
/// the operands from which colored pieces are built.
#[derive(Clone, Copy, Debug, PartialEq, Eq, Structural)]
pub enum Piece {
    Empty,
    Pawn,
    Knight,
    Bishop,
    Rook,
    Queen,
    King,
    Black,
    White,
    BlackPawn,
    BlackKnight,
    BlackBishop,
    BlackRook,
    BlackQueen,
    BlackKing,
    WhitePawn,
    WhiteKnight,
    WhiteBishop,
    WhiteRook,
    WhiteQueen,
    WhiteKing,
}

/// The bits of a code that hold the kind.
pub const KIND_MASK: isize = 0b00111;

/// The bits of a code that hold the color.
pub const COLOR_MASK: isize = 0b11000;

impl Piece {
    /// The integer code of this value.
    pub open spec fn code(self) -> isize {
        match self {
            Piece::Empty => 0b00000,
            Piece::Pawn => 0b00001,
            Piece::Knight => 0b00010,
            Piece::Bishop => 0b00011,
            Piece::Rook => 0b00100,
            Piece::Queen => 0b00101,
            Piece::King => 0b00110,
            Piece::Black => 0b01000,
            Piece::White => 0b10000,
            Piece::BlackPawn => 0b01001,
            Piece::BlackKnight => 0b01010,
            Piece::BlackBishop => 0b01011,
            Piece::BlackRook => 0b01100,
            Piece::BlackQueen => 0b01101,
            Piece::BlackKing => 0b01110,
            Piece::WhitePawn => 0b10001,
            Piece::WhiteKnight => 0b10010,
            Piece::WhiteBishop => 0b10011,
            Piece::WhiteRook => 0b10100,
            Piece::WhiteQueen => 0b10101,
            Piece::WhiteKing => 0b10110,
        }
    }

    /// Returns the integer code of this value.
    pub fn to_isize(self) -> (r: isize)
        ensures
            r == self.code(),
    {
        match self {
            Piece::Empty => 0b00000,
            Piece::Pawn => 0b00001,
            Piece::Knight => 0b00010,
            Piece::Bishop => 0b00011,
            Piece::Rook => 0b00100,
            Piece::Queen => 0b00101,
            Piece::King => 0b00110,
            Piece::Black => 0b01000,
            Piece::White => 0b10000,
            Piece::BlackPawn => 0b01001,
            Piece::BlackKnight => 0b01010,
            Piece::BlackBishop => 0b01011,
            Piece::BlackRook => 0b01100,
            Piece::BlackQueen => 0b01101,
            Piece::BlackKing => 0b01110,
            Piece::WhitePawn => 0b10001,
            Piece::WhiteKnight => 0b10010,
            Piece::WhiteBishop => 0b10011,
            Piece::WhiteRook => 0b10100,
            Piece::WhiteQueen => 0b10101,
            Piece::WhiteKing => 0b10110,
        }
    }
}

/// An integer is a code exactly when some piece has it.
pub open spec fn is_code(c: isize) -> bool {
    exists|p: Piece| p.code() == c
}

/// Values of the codes under the two field masks, and of a kind OR a color.
proof fn lemma_code_bits()
    by (bit_vector)
    ensures
        0isize & 7 == 0,
        0isize & 24 == 0,
        1isize & 7 == 1,
        1isize & 24 == 0,
        2isize & 7 == 2,
        2isize & 24 == 0,
        3isize & 7 == 3,
        3isize & 24 == 0,
        4isize & 7 == 4,
        4isize & 24 == 0,
        5isize & 7 == 5,
        5isize & 24 == 0,
        6isize & 7 == 6,
        6isize & 24 == 0,
        8isize & 7 == 0,
        8isize & 24 == 8,
        16isize & 7 == 0,
        16isize & 24 == 16,
        9isize & 7 == 1,
        9isize & 24 == 8,
        10isize & 7 == 2,
        10isize & 24 == 8,
        11isize & 7 == 3,
        11isize & 24 == 8,
        12isize & 7 == 4,
        12isize & 24 == 8,
        13isize & 7 == 5,
        13isize & 24 == 8,
        14isize & 7 == 6,
        14isize & 24 == 8,
        17isize & 7 == 1,
        17isize & 24 == 16,
        18isize & 7 == 2,
        18isize & 24 == 16,
        19isize & 7 == 3,
        19isize & 24 == 16,
        20isize & 7 == 4,
        20isize & 24 == 16,
        21isize & 7 == 5,
        21isize & 24 == 16,
        22isize & 7 == 6,
        22isize & 24 == 16,
        0isize | 0 == 0,
        0isize | 8 == 8,
        0isize | 16 == 16,
        1isize | 0 == 1,
        1isize | 8 == 9,
        1isize | 16 == 17,
        2isize | 0 == 2,
        2isize | 8 == 10,
        2isize | 16 == 18,
        3isize | 0 == 3,
        3isize | 8 == 11,
        3isize | 16 == 19,
        4isize | 0 == 4,
        4isize | 8 == 12,
        4isize | 16 == 20,
        5isize | 0 == 5,
        5isize | 8 == 13,
        5isize | 16 == 21,
        6isize | 0 == 6,
        6isize | 8 == 14,
        6isize | 16 == 22,
{
}

/// The kind and color fields of a value are what masking its code gives.
pub proof fn lemma_fields_are_masks(p: Piece)
    ensures
        p.kind_of().code() == p.code() & KIND_MASK,
        p.color_of().code() == p.code() & COLOR_MASK,
{
    lemma_code_bits();
}

impl Piece {
    /// A bare kind: one of the six kinds without a color.
    pub open spec fn is_kind(self) -> bool {
        matches!(self, Piece::Pawn | Piece::Knight | Piece::Bishop | Piece::Rook | Piece::Queen | Piece::King)
    }

    /// A bare color.
    pub open spec fn is_color(self) -> bool {
        matches!(self, Piece::Black | Piece::White)
    }

    /// What a board cell may hold: nothing, or a piece of some kind and color.
    pub open spec fn is_placeable(self) -> bool {
        !self.is_kind() && !self.is_color()
    }

    /// The kind field of this value: `Empty` or a bare kind.
    pub open spec fn kind_of(self) -> Piece {
        match self {
            Piece::Pawn | Piece::BlackPawn | Piece::WhitePawn => Piece::Pawn,
            Piece::Knight | Piece::BlackKnight | Piece::WhiteKnight => Piece::Knight,
            Piece::Bishop | Piece::BlackBishop | Piece::WhiteBishop => Piece::Bishop,
            Piece::Rook | Piece::BlackRook | Piece::WhiteRook => Piece::Rook,
            Piece::Queen | Piece::BlackQueen | Piece::WhiteQueen => Piece::Queen,
            Piece::King | Piece::BlackKing | Piece::WhiteKing => Piece::King,
            _ => Piece::Empty,
        }
    }

    /// The color field of this value: `Empty` (no color) or a bare color.
    pub open spec fn color_of(self) -> Piece {
        match self {
            Piece::Black | Piece::BlackPawn | Piece::BlackKnight | Piece::BlackBishop
            | Piece::BlackRook | Piece::BlackQueen | Piece::BlackKing => Piece::Black,
            Piece::White | Piece::WhitePawn | Piece::WhiteKnight | Piece::WhiteBishop
            | Piece::WhiteRook | Piece::WhiteQueen | Piece::WhiteKing => Piece::White,
            _ => Piece::Empty,
        }
    }

    /// The piece of the given color and kind.
    pub open spec fn colored(color: Piece, kind: Piece) -> Piece {
        match (color, kind) {
            (Piece::Black, Piece::Pawn) => Piece::BlackPawn,
            (Piece::Black, Piece::Knight) => Piece::BlackKnight,
            (Piece::Black, Piece::Bishop) => Piece::BlackBishop,
            (Piece::Black, Piece::Rook) => Piece::BlackRook,
            (Piece::Black, Piece::Queen) => Piece::BlackQueen,
            (Piece::Black, Piece::King) => Piece::BlackKing,
            (Piece::White, Piece::Pawn) => Piece::WhitePawn,
            (Piece::White, Piece::Knight) => Piece::WhiteKnight,
            (Piece::White, Piece::Bishop) => Piece::WhiteBishop,
            (Piece::White, Piece::Rook) => Piece::WhiteRook,
            (Piece::White, Piece::Queen) => Piece::WhiteQueen,
            (Piece::White, Piece::King) => Piece::WhiteKing,
            _ => Piece::Empty,
        }
    }

    /// The display character, chosen by (color field, kind field): a space
    /// when there is no kind, a lower-case letter for Black, an upper-case
    /// letter for White, and `?` for a kind without a color.
    pub open spec fn glyph(self) -> char {
        match (self.color_of(), self.kind_of()) {
            (_, Piece::Empty) => ' ',
            (Piece::Black, Piece::Pawn) => 'p',
            (Piece::Black, Piece::Knight) => 'n',
            (Piece::Black, Piece::Bishop) => 'b',
            (Piece::Black, Piece::Rook) => 'r',
            (Piece::Black, Piece::Queen) => 'q',
            (Piece::Black, Piece::King) => 'k',
            (Piece::White, Piece::Pawn) => 'P',
            (Piece::White, Piece::Knight) => 'N',
            (Piece::White, Piece::Bishop) => 'B',
            (Piece::White, Piece::Rook) => 'R',
            (Piece::White, Piece::Queen) => 'Q',
            (Piece::White, Piece::King) => 'K',
            _ => '?',
        }
    }

    /// Decodes an integer: the piece whose code it is, or `None` when no
    /// piece has that code.
    pub fn decode(code: isize) -> (r: Option<Piece>)
        ensures
            r is Some <==> is_code(code),
            r matches Some(p) ==> p.code() == code,
    {
        let r = match code {
            0 => Some(Piece::Empty),
            1 => Some(Piece::Pawn),
            2 => Some(Piece::Knight),
            3 => Some(Piece::Bishop),
            4 => Some(Piece::Rook),
            5 => Some(Piece::Queen),
            6 => Some(Piece::King),
            8 => Some(Piece::Black),
            16 => Some(Piece::White),
            9 => Some(Piece::BlackPawn),
            10 => Some(Piece::BlackKnight),
            11 => Some(Piece::BlackBishop),
            12 => Some(Piece::BlackRook),
            13 => Some(Piece::BlackQueen),
            14 => Some(Piece::BlackKing),
            17 => Some(Piece::WhitePawn),
            18 => Some(Piece::WhiteKnight),
            19 => Some(Piece::WhiteBishop),
            20 => Some(Piece::WhiteRook),
            21 => Some(Piece::WhiteQueen),
            22 => Some(Piece::WhiteKing),
            _ => None,
        };
        proof {
            if r is Some {
                assert(r->0.code() == code);
            }
        }
        r
    }

    /// Decodes a code that some piece has.
    pub fn from_isize(piece: isize) -> (r: Piece)
        requires
            is_code(piece),
        ensures
            r.code() == piece,
    {
        Piece::decode(piece).unwrap()
    }

    /// The kind field of a value, found by masking its code with the kind bits.
    pub fn kind(piece: Piece) -> (r: Piece)
        ensures
            r.code() == piece.code() & KIND_MASK,
            r == piece.kind_of(),
    {
        proof {
            lemma_fields_are_masks(piece);
        }
        Piece::from_isize(piece.to_isize() & KIND_MASK)
    }

    /// The color field of a value, found by masking its code with the color bits.
    pub fn color(piece: Piece) -> (r: Piece)
        ensures
            r.code() == piece.code() & COLOR_MASK,
            r == piece.color_of(),
    {
        proof {
            lemma_fields_are_masks(piece);
        }
        Piece::from_isize(piece.to_isize() & COLOR_MASK)
    }

    /// The value whose code is the bitwise OR of the two codes; that OR must
    /// be a code.
    pub fn bitor(self, rhs: Piece) -> (r: Piece)
        requires
            is_code(self.code() | rhs.code()),
        ensures
            r.code() == self.code() | rhs.code(),
    {
        Piece::from_isize(self.to_isize() | rhs.to_isize())
    }

    /// The value whose code is the bitwise AND of the two codes; that AND
    /// must be a code.
    pub fn bitand(self, rhs: Piece) -> (r: Piece)
        requires
            is_code(self.code() & rhs.code()),
        ensures
            r.code() == self.code() & rhs.code(),
    {
        Piece::from_isize(self.to_isize() & rhs.to_isize())
    }
}

impl Piece {
    /// The one-character text that shows this value, chosen by its color
    /// field and its kind field.
    pub fn to_str(self) -> (r: &'static str)
        ensures
            r@ == seq![self.glyph()],
    {
        proof {
            reveal_strlit(" ");
            reveal_strlit("p");
            reveal_strlit("n");
            reveal_strlit("b");
            reveal_strlit("r");
            reveal_strlit("q");
            reveal_strlit("k");
            reveal_strlit("P");
            reveal_strlit("N");
            reveal_strlit("B");
            reveal_strlit("R");
            reveal_strlit("Q");
            reveal_strlit("K");
            reveal_strlit("?");
        }
        match (Piece::color(self), Piece::kind(self)) {
            (_, Piece::Empty) => " ",
            (Piece::Black, Piece::Pawn) => "p",
            (Piece::Black, Piece::Knight) => "n",
            (Piece::Black, Piece::Bishop) => "b",
            (Piece::Black, Piece::Rook) => "r",
            (Piece::Black, Piece::Queen) => "q",
            (Piece::Black, Piece::King) => "k",
            (Piece::White, Piece::Pawn) => "P",
            (Piece::White, Piece::Knight) => "N",
            (Piece::White, Piece::Bishop) => "B",
            (Piece::White, Piece::Rook) => "R",
            (Piece::White, Piece::Queen) => "Q",
            (Piece::White, Piece::King) => "K",
            _ => "?",
        }
    }
}

/// A bare kind combined with a bare color is a code, the code of the piece of
/// that color and kind; extracting that piece's kind and color gives back the
/// two operands.
pub proof fn lemma_combine_kind_color(k: Piece, c: Piece)
    requires
        k.is_kind(),
        c.is_color(),
    ensures
        is_code(k.code() | c.code()),
        Piece::colored(c, k).code() == k.code() | c.code(),
        Piece::colored(c, k).is_placeable(),
        Piece::colored(c, k).kind_of() == k,
        Piece::colored(c, k).color_of() == c,
{
    lemma_code_bits();
    assert(Piece::colored(c, k).code() == k.code() | c.code());
}

/// Every value that a cell may hold is the combination of its own kind field
/// and color field.
pub proof fn lemma_decompose(p: Piece)
    requires
        p.is_placeable(),
    ensures
        is_code(p.kind_of().code() | p.color_of().code()),
        p.kind_of().code() | p.color_of().code() == p.code(),
        p != Piece::Empty ==> p == Piece::colored(p.color_of(), p.kind_of()),
{
    lemma_code_bits();
    assert(p.code() == p.kind_of().code() | p.color_of().code());
}

/// Distinct values that a cell may hold are shown by distinct characters,
/// none of them the fallback `?`.
pub proof fn lemma_glyph_distinct(a: Piece, b: Piece)
    requires
        a.is_placeable(),
        b.is_placeable(),
    ensures
        a.glyph() != '?',
        a != b ==> a.glyph() != b.glyph(),
{
}

} // verus!
