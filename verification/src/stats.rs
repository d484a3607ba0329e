//! Run statistics shown on the end screen.

use vstd::prelude::*;

use crate::card::CardActionKey;
use crate::faction::Faction;

verus! {

/// Counters kept over a run.
#[derive(Clone, Copy, Default)]
pub struct Stats {
    pub beats: usize,
    pub kills: usize,
    pub played_moves: usize,
    pub played_attacks: usize,
    pub played_heals: usize,
}

impl Stats {
    /// The number of cards the player has played.
    pub open spec fn played(self) -> int {
        self.played_moves + self.played_attacks + self.played_heals
    }

    /// Count one eighth-beat.
    pub fn count_beats(&mut self)
        requires
            old(self).beats < usize::MAX,
        ensures
            *final(self) == (Stats { beats: (old(self).beats + 1) as usize, ..*old(self) }),
    {
        self.beats = self.beats + 1;
    }

    /// Count the death of an actor of `faction`: only enemies count as kills.
    pub fn count_kills(&mut self, faction: Faction)
        requires
            faction == Faction::Enemy ==> old(self).kills < usize::MAX,
        ensures
            faction == Faction::Enemy ==> *final(self) == (Stats {
                kills: (old(self).kills + 1) as usize,
                ..*old(self)
            }),
            faction == Faction::Player ==> *final(self) == *old(self),
    {
        if !faction.is_enemy() {
            return;
        }
        self.kills = self.kills + 1;
    }

    /// Count a card played by an actor of `faction`: only the player's cards
    /// count, each under the kind of its action.
    pub fn count_played_cards(&mut self, faction: Faction, action: CardActionKey)
        requires
            faction == Faction::Player ==> match action {
                CardActionKey::Attack => old(self).played_attacks < usize::MAX,
                CardActionKey::Heal => old(self).played_heals < usize::MAX,
                CardActionKey::Move => old(self).played_moves < usize::MAX,
            },
        ensures
            faction == Faction::Enemy ==> *final(self) == *old(self),
            faction == Faction::Player ==> *final(self) == (match action {
                CardActionKey::Attack => Stats {
                    played_attacks: (old(self).played_attacks + 1) as usize,
                    ..*old(self)
                },
                CardActionKey::Heal => Stats {
                    played_heals: (old(self).played_heals + 1) as usize,
                    ..*old(self)
                },
                CardActionKey::Move => Stats {
                    played_moves: (old(self).played_moves + 1) as usize,
                    ..*old(self)
                },
            }),
    {
        if !faction.is_player() {
            return;
        }
        match action {
            CardActionKey::Attack => self.played_attacks = self.played_attacks + 1,
            CardActionKey::Heal => self.played_heals = self.played_heals + 1,
            _ => self.played_moves = self.played_moves + 1,
        }
    }
}

/// Each card the player plays is counted exactly once, under one kind.
pub proof fn law_each_played_card_counted_once(before: Stats, after: Stats, action: CardActionKey)
    requires
        after == (match action {
            CardActionKey::Attack => Stats {
                played_attacks: (before.played_attacks + 1) as usize,
                ..before
            },
            CardActionKey::Heal => Stats { played_heals: (before.played_heals + 1) as usize, ..before },
            CardActionKey::Move => Stats { played_moves: (before.played_moves + 1) as usize, ..before },
        }),
        before.played_attacks < usize::MAX,
        before.played_heals < usize::MAX,
        before.played_moves < usize::MAX,
    ensures
        after.played() == before.played() + 1,
        after.beats == before.beats,
        after.kills == before.kills,
{
}

/// The decimal digit `d` as text.
pub open spec fn digit_text(d: int) -> Seq<char> {
    if d == 0 {
        "0"@
    } else if d == 1 {
        "1"@
    } else if d == 2 {
        "2"@
    } else if d == 3 {
        "3"@
    } else if d == 4 {
        "4"@
    } else if d == 5 {
        "5"@
    } else if d == 6 {
        "6"@
    } else if d == 7 {
        "7"@
    } else if d == 8 {
        "8"@
    } else {
        "9"@
    }
}

/// The decimal text of `n`, most significant digit first, without leading zeros.
pub open spec fn decimal_text(n: nat) -> Seq<char>
    decreases n,
{
    if n < 10 {
        digit_text(n as int)
    } else {
        decimal_text(n / 10) + digit_text((n % 10) as int)
    }
}

fn digit_str(d: usize) -> (text: &'static str)
    requires
        d < 10,
    ensures
        text@ == digit_text(d as int),
{
    if d == 0 {
        "0"
    } else if d == 1 {
        "1"
    } else if d == 2 {
        "2"
    } else if d == 3 {
        "3"
    } else if d == 4 {
        "4"
    } else if d == 5 {
        "5"
    } else if d == 6 {
        "6"
    } else if d == 7 {
        "7"
    } else if d == 8 {
        "8"
    } else {
        "9"
    }
}

/// The decimal text of a count.
pub fn decimal(n: usize) -> (text: String)
    ensures
        text@ == decimal_text(n as nat),
    decreases n,
{
    if n < 10 {
        String::from_str(digit_str(n))
    } else {
        let mut text = decimal(n / 10);
        text.append(digit_str(n % 10));
        text
    }
}

/// One cell of the end-screen stats grid.
pub struct StatCell {
    pub text: String,
    /// Values are emphasized (bold, indicator colour, right-aligned); labels
    /// are plain body text, left-aligned.
    pub emphasized: bool,
}

/// The label of each stat row, in order.
pub open spec fn stat_label(row: int) -> Seq<char> {
    if row == 0 {
        "seconds partied"@
    } else if row == 1 {
        "blobos impressed"@
    } else if row == 2 {
        "dances performed"@
    } else if row == 3 {
        "notes played"@
    } else {
        "rests taken"@
    }
}

impl Stats {
    /// The value shown in stat row `row` (row 0, the party time, is given as text).
    pub open spec fn row_value(self, row: int, seconds: Seq<char>) -> Seq<char> {
        if row == 0 {
            seconds
        } else if row == 1 {
            decimal_text(self.kills as nat)
        } else if row == 2 {
            decimal_text(self.played_moves as nat)
        } else if row == 3 {
            decimal_text(self.played_attacks as nat)
        } else {
            decimal_text(self.played_heals as nat)
        }
    }

    /// The cells of the end-screen stats grid, row by row: each value (the
    /// party time is given as `seconds`) followed by its label.
    pub fn grid_cells(&self, seconds: String) -> (cells: Vec<StatCell>)
        ensures
            cells@.len() == 10,
            forall|i: int|
                0 <= i < 10 ==> {
                    &&& (#[trigger] cells@[i]).emphasized == (i % 2 == 0)
                    &&& cells@[i].text@ == if i % 2 == 0 {
                        self.row_value(i / 2, seconds@)
                    } else {
                        stat_label(i / 2)
                    }
                },
    {
        let mut cells: Vec<StatCell> = Vec::new();
        cells.push(StatCell { text: seconds, emphasized: true });
        cells.push(StatCell { text: String::from_str("seconds partied"), emphasized: false });
        cells.push(StatCell { text: decimal(self.kills), emphasized: true });
        cells.push(StatCell { text: String::from_str("blobos impressed"), emphasized: false });
        cells.push(StatCell { text: decimal(self.played_moves), emphasized: true });
        cells.push(StatCell { text: String::from_str("dances performed"), emphasized: false });
        cells.push(StatCell { text: decimal(self.played_attacks), emphasized: true });
        cells.push(StatCell { text: String::from_str("notes played"), emphasized: false });
        cells.push(StatCell { text: decimal(self.played_heals), emphasized: true });
        cells.push(StatCell { text: String::from_str("rests taken"), emphasized: false });
        cells
    }
}

} // verus!
