use vstd::prelude::*;
use vstd::string::StringExecFns;

use crate::game::Game;
use crate::point::Point;

verus! {

/// The character of a decimal digit below ten.
pub open spec fn digit_char(d: nat) -> char {
    ((48 + d) as u8) as char
}

/// The decimal digits of `n`, most significant first, without leading zeros.
pub open spec fn decimal(n: nat) -> Seq<char>
    decreases n,
{
    if n < 10 {
        seq![digit_char(n)]
    } else {
        decimal(n / 10).push(digit_char(n % 10))
    }
}

/// What one cell shows: food, a part of the snake, or an empty square.
pub open spec fn glyph(g: Game, p: Point) -> char {
    if g.food == Some(p) {
        '\u{ae}'
    } else if g.snake.body@.contains(p) {
        '\u{2588}'
    } else {
        '\u{2591}'
    }
}

/// The first `n` cells of row `y`, each padded with a space on both sides.
pub open spec fn row_text(g: Game, y: int, n: nat) -> Seq<char>
    decreases n,
{
    if n == 0 {
        Seq::empty()
    } else {
        row_text(g, y, (n - 1) as nat) + seq![' ', glyph(g, Point { x: (n - 1) as u16, y: y as u16 }), ' ']
    }
}

/// The first `m` rows of the grid, top to bottom, each ended by CR LF.
pub open spec fn rows_text(g: Game, m: nat) -> Seq<char>
    decreases m,
{
    if m == 0 {
        Seq::empty()
    } else {
        rows_text(g, (m - 1) as nat) + row_text(g, m - 1, g.width as nat) + seq!['\r', '\n']
    }
}

/// The picture of a game: a score line, then the grid row by row.
pub open spec fn picture(g: Game) -> Seq<char> {
    seq!['S', 'c', 'o', 'r', 'e', ':', ' '] + decimal(g.score as nat) + seq![' ', '\r', '\n']
        + rows_text(g, g.height as nat)
}

/// Relies on `ToString::to_string` for `u16`, that is its `Display`: the
/// decimal digits of the number, without sign or leading zeros.
#[verifier::external_body]
fn decimal_text(n: u16) -> (r: String)
    ensures
        r@ == decimal(n as nat),
{
    n.to_string()
}

/// Draws the game as text: the score, then one line per row of the grid.
pub fn render(game: &Game) -> (r: String)
    ensures
        r@ == picture(*game),
{
    let mut ascii_art = String::new();
    ascii_art.append("Score: ");
    let score = decimal_text(game.score);
    ascii_art.append(score.as_str());
    ascii_art.append(" \r\n");
    proof {
        reveal_strlit("Score: ");
        reveal_strlit(" \r\n");
    }
    let ghost head = ascii_art@;
    assert(head + rows_text(*game, 0) =~= head);
    let mut y: u16 = 0;
    while y < game.height
        invariant
            y <= game.height,
            head == seq!['S', 'c', 'o', 'r', 'e', ':', ' '] + decimal(game.score as nat) + seq![' ', '\r', '\n'],
            ascii_art@ == head + rows_text(*game, y as nat),
        decreases game.height - y,
    {
        let ghost before_row = ascii_art@;
        let mut x: u16 = 0;
        while x < game.width
            invariant
                x <= game.width,
                y < game.height,
                ascii_art@ == before_row + row_text(*game, y as int, x as nat),
            decreases game.width - x,
        {
            let p = Point::new(x, y);
            let is_food = match game.food {
                Some(f) => f == p,
                None => false,
            };
            if is_food {
                ascii_art.append(" \u{ae} ");
                proof {
                    reveal_strlit(" \u{ae} ");
                }
            } else if game.snake.contains_point(&p) {
                ascii_art.append(" \u{2588} ");
                proof {
                    reveal_strlit(" \u{2588} ");
                }
            } else {
                ascii_art.append(" \u{2591} ");
                proof {
                    reveal_strlit(" \u{2591} ");
                }
            }
            x = x + 1;
            assert(ascii_art@ =~= before_row + row_text(*game, y as int, x as nat));
        }
        ascii_art.append("\r\n");
        proof {
            reveal_strlit("\r\n");
        }
        y = y + 1;
        assert(ascii_art@ =~= head + rows_text(*game, y as nat));
    }
    ascii_art
}

} // verus!
