use vstd::prelude::*;
use vstd::string::StringExecFns;

verus! {

/// A player of the match.
#[derive(Debug, Clone, Copy, PartialEq, Eq, Structural)]
pub enum Player {
    Player1,
    Player2,
}

/// The score of a match.
#[derive(Debug, Clone, Copy, PartialEq, Eq, Structural)]
pub struct GameState {
    pub(crate) player_1_points: u8,
    pub(crate) player_2_points: u8,
}

/// The decimal digit `d`.
pub open spec fn digit(d: int) -> char {
    if d == 0 {
        '0'
    } else if d == 1 {
        '1'
    } else if d == 2 {
        '2'
    } else if d == 3 {
        '3'
    } else if d == 4 {
        '4'
    } else if d == 5 {
        '5'
    } else if d == 6 {
        '6'
    } else if d == 7 {
        '7'
    } else if d == 8 {
        '8'
    } else {
        '9'
    }
}

/// `n` written in decimal, without leading zeros.
pub open spec fn decimal(n: nat) -> Seq<char>
    decreases n,
{
    if n < 10 {
        seq![digit(n as int)]
    } else {
        decimal(n / 10).push(digit((n % 10) as int))
    }
}

/// The name of a player.
pub open spec fn player_name(p: Player) -> Seq<char> {
    match p {
        Player::Player1 => seq!['P', 'l', 'a', 'y', 'e', 'r', ' ', '1'],
        Player::Player2 => seq!['P', 'l', 'a', 'y', 'e', 'r', ' ', '2'],
    }
}

fn digit_str(d: u8) -> (r: &'static str)
    requires
        d < 10,
    ensures
        r@ == seq![digit(d as int)],
{
    if d == 0 {
        proof {
            reveal_strlit("0");
        }
        "0"
    } else if d == 1 {
        proof {
            reveal_strlit("1");
        }
        "1"
    } else if d == 2 {
        proof {
            reveal_strlit("2");
        }
        "2"
    } else if d == 3 {
        proof {
            reveal_strlit("3");
        }
        "3"
    } else if d == 4 {
        proof {
            reveal_strlit("4");
        }
        "4"
    } else if d == 5 {
        proof {
            reveal_strlit("5");
        }
        "5"
    } else if d == 6 {
        proof {
            reveal_strlit("6");
        }
        "6"
    } else if d == 7 {
        proof {
            reveal_strlit("7");
        }
        "7"
    } else if d == 8 {
        proof {
            reveal_strlit("8");
        }
        "8"
    } else {
        proof {
            reveal_strlit("9");
        }
        "9"
    }
}

/// Appends `n` in decimal to `s`.
fn push_decimal(s: &mut String, n: u8)
    ensures
        final(s)@ == old(s)@ + decimal(n as nat),
{
    let ghost start = s@;
    if n >= 100 {
        s.append(digit_str(n / 100));
        s.append(digit_str((n / 10) % 10));
        s.append(digit_str(n % 10));
        proof {
            assert(decimal((n / 10) as nat) == decimal((n / 100) as nat).push(
                digit(((n / 10) % 10) as int),
            ));
            assert(decimal((n / 100) as nat) == seq![digit((n / 100) as int)]);
            assert(s@ =~= start + decimal(n as nat));
        }
    } else if n >= 10 {
        s.append(digit_str(n / 10));
        s.append(digit_str(n % 10));
        assert(decimal((n / 10) as nat) == seq![digit((n / 10) as int)]);
        assert(s@ =~= start + decimal(n as nat));
    } else {
        s.append(digit_str(n));
        assert(s@ =~= start + decimal(n as nat));
    }
}

impl Player {
    /// The player's name: "Player 1" or "Player 2".
    pub fn to_string(&self) -> (r: String)
        ensures
            r@ == player_name(*self),
    {
        match self {
            Player::Player1 => {
                proof {
                    reveal_strlit("Player 1");
                }
                String::from_str("Player 1")
            },
            Player::Player2 => {
                proof {
                    reveal_strlit("Player 2");
                }
                String::from_str("Player 2")
            },
        }
    }
}

impl Default for GameState {
    /// A match that has not started: no points on either side.
    fn default() -> (s: Self)
        ensures
            s.points(Player::Player1) == 0,
            s.points(Player::Player2) == 0,
    {
        GameState { player_1_points: 0, player_2_points: 0 }
    }
}

impl GameState {
    /// The points of player `p`.
    pub open(crate) spec fn points(&self, p: Player) -> u8 {
        match p {
            Player::Player1 => self.player_1_points,
            Player::Player2 => self.player_2_points,
        }
    }

    /// A player's points.
    pub fn points_of(&self, player: &Player) -> (r: u8)
        ensures
            r == self.points(*player),
    {
        match player {
            Player::Player1 => self.player_1_points,
            Player::Player2 => self.player_2_points,
        }
    }

    /// Gives one point to `player`.
    pub fn score(&mut self, player: &Player)
        requires
            old(self).points(*player) < u8::MAX,
        ensures
            final(self).points(*player) == old(self).points(*player) + 1,
            forall|q: Player| q != *player ==> final(self).points(q) == old(self).points(q),
    {
        match player {
            Player::Player1 => self.player_1_points = self.player_1_points + 1,
            Player::Player2 => self.player_2_points = self.player_2_points + 1,
        }
    }

    /// The player who has reached `winning_points`, if any; player 1 is checked
    /// first.
    pub fn winner(&self, winning_points: u8) -> (r: Option<Player>)
        ensures
            r == winner_of(*self, winning_points),
    {
        if self.player_1_points >= winning_points {
            Some(Player::Player1)
        } else if self.player_2_points >= winning_points {
            Some(Player::Player2)
        } else {
            None
        }
    }

    /// The score as "points of player 1:points of player 2".
    pub fn fmt_score(&self) -> (r: String)
        ensures
            r@ == decimal(self.points(Player::Player1) as nat) + seq![':'] + decimal(
                self.points(Player::Player2) as nat,
            ),
    {
        let mut s = String::new();
        push_decimal(&mut s, self.player_1_points);
        proof {
            reveal_strlit(":");
        }
        s.append(":");
        push_decimal(&mut s, self.player_2_points);
        s
    }
}

/// The player who has reached `winning_points`, if any; player 1 is checked first.
pub open spec fn winner_of(s: GameState, winning_points: u8) -> Option<Player> {
    if s.points(Player::Player1) >= winning_points {
        Some(Player::Player1)
    } else if s.points(Player::Player2) >= winning_points {
        Some(Player::Player2)
    } else {
        None
    }
}

/// Win detection: player 1 wins once their points reach the threshold; player 2
/// wins once theirs do while player 1's are below it; below the threshold on both
/// sides nobody has won.
pub proof fn lemma_win_detection(s: GameState, winning_points: u8)
    ensures
        s.points(Player::Player1) >= winning_points ==> winner_of(s, winning_points) == Some(
            Player::Player1,
        ),
        s.points(Player::Player1) < winning_points && s.points(Player::Player2) >= winning_points
            ==> winner_of(s, winning_points) == Some(Player::Player2),
        s.points(Player::Player1) < winning_points && s.points(Player::Player2) < winning_points
            ==> winner_of(s, winning_points) is None,
{
}

} // verus!
