//! Games hosted by the platform, and the outcome of a position.
use vstd::prelude::*;
use vstd::string::*;

pub mod connect4;

verus! {

/// The games that the platform knows.
#[derive(Clone, Copy, Debug, PartialEq, Eq, Structural)]
pub enum Game {
    Connect4,
}

/// How a finished game ended.
#[derive(Clone, Copy, Debug, PartialEq, Eq, Structural)]
pub enum GameResult {
    /// Index of the winning player.
    Winner { winning_player: usize },
    Tie,
}

/// Whether a game goes on, and with whom, or how it ended.
#[derive(Clone, Copy, Debug, PartialEq, Eq, Structural)]
pub enum GameStatus {
    /// Index of the player whose turn it is.
    InProgress { next_player: usize },
    Over { result: GameResult },
}

impl GameStatus {
    pub open spec fn is_over(self) -> bool {
        self is Over
    }
}

/// Code point of the ASCII lower case of one character; other characters
/// keep theirs.
pub open spec fn ascii_lower(c: char) -> u32 {
    if 'A' <= c && c <= 'Z' {
        ((c as u32) + 32) as u32
    } else {
        c as u32
    }
}

/// `s` equals `t` once its ASCII letters are put in lower case.
pub open spec fn eq_ignore_ascii_case(s: Seq<char>, t: Seq<char>) -> bool {
    s.len() == t.len() && forall|i: int| 0 <= i < s.len() ==> ascii_lower(#[trigger] s[i]) == t[i] as u32
}

/// The tag of Connect-4.
pub open spec fn connect4_tag() -> Seq<char> {
    seq!['c', 'o', 'n', 'n', 'e', 'c', 't', '4']
}

/// The game tag `s` names, with ASCII letters compared without case.
pub open spec fn game_named(s: Seq<char>) -> Option<Game> {
    if eq_ignore_ascii_case(s, connect4_tag()) {
        Some(Game::Connect4)
    } else {
        None
    }
}

fn lower_char(c: char) -> (r: u32)
    ensures
        r == ascii_lower(c),
{
    if 'A' <= c && c <= 'Z' {
        c as u32 + 32
    } else {
        c as u32
    }
}

impl Game {
    /// The game named by `s`, ignoring ASCII case (`connect4`, `Connect4`).
    pub fn from_name(s: &str) -> (r: Option<Game>)
        ensures
            r == game_named(s@),
    {
        let expected: [char; 8] = ['c', 'o', 'n', 'n', 'e', 'c', 't', '4'];
        assert(expected@ == connect4_tag());
        let n = s.unicode_len();
        if n != 8 {
            return None;
        }
        let mut i: usize = 0;
        while i < 8
            invariant
                n == s@.len(),
                n == 8,
                expected@ == connect4_tag(),
                0 <= i <= 8,
                forall|k: int| 0 <= k < i ==> ascii_lower(#[trigger] s@[k]) == connect4_tag()[k] as u32,
            decreases 8 - i,
        {
            let c = lower_char(s.get_char(i));
            if c != expected[i] as u32 {
                return None;
            }
            i = i + 1;
        }
        Some(Game::Connect4)
    }

    /// The tag under which the game is stored and announced to agents.
    pub fn tag(&self) -> (r: &'static str)
        ensures
            r@ == connect4_tag(),
    {
        proof {
            reveal_strlit("connect4");
        }
        "connect4"
    }
}

impl core::str::FromStr for Game {
    type Err = String;

    fn from_str(s: &str) -> Result<Game, String> {
        match Game::from_name(s) {
            Some(g) => Ok(g),
            None => Err(<String as StringExecFns>::from_str("Unknown game: ").concat(s)),
        }
    }
}

} // verus!
