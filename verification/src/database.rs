//! The records of the user database that the screens show.
use vstd::prelude::*;
use vstd::string::*;
use crate::text::{all_digits, decimal, decimal_string, law_decimal_reads_back, numeral_value, push_decimal};

verus! {

/// A flag of the competition: a row of the `flags` table, with whether the player has solved it.
pub struct Flag {
    pub id: u64,
    pub name: String,
    /// The flag's description, in markdown.
    pub description: String,
    /// What solving the flag is worth.
    pub points: u64,
    /// The secret that a player submits.
    pub flag: String,
    /// Whether the player looking at it has solved it.
    pub solved: bool,
}

/// The first line of a flag's preview: its name, then its points, and a mark when it is solved.
pub open spec fn preview_title_text(name: Seq<char>, points: u64, solved: bool) -> Seq<char> {
    name + "\nPoints - "@ + decimal(points as nat) + if solved {
        " - SOLVED"@
    } else {
        Seq::<char>::empty()
    }
}

/// What the "Solved" column of the flag table shows.
pub open spec fn solved_cell(solved: bool) -> Seq<char> {
    if solved {
        "SOLVED"@
    } else {
        Seq::<char>::empty()
    }
}

impl Flag {
    /// The flag's name.
    pub fn name(&self) -> (res: &String)
        ensures
            res == &self.name,
    {
        &self.name
    }

    /// The flag's description.
    pub fn description(&self) -> (res: &String)
        ensures
            res == &self.description,
    {
        &self.description
    }

    /// What the flag is worth.
    pub fn points(&self) -> (res: u64)
        ensures
            res == self.points,
    {
        self.points
    }

    /// Whether the flag is solved.
    pub fn solved(&self) -> (res: bool)
        ensures
            res == self.solved,
    {
        self.solved
    }

    /// The title of the flag's preview: "NAME\nPoints - POINTS", then " - SOLVED" when solved.
    pub fn preview_title(&self) -> (res: String)
        ensures
            res@ == preview_title_text(self.name@, self.points, self.solved),
    {
        let mut s = self.name.clone();
        s.append("\nPoints - ");
        push_decimal(&mut s, self.points);
        if self.solved {
            s.append(" - SOLVED");
        }
        proof {
            assert(s@ =~= preview_title_text(self.name@, self.points, self.solved));
        }
        s
    }

    /// The cells of the flag's row in the flag table: name, description, points and solved.
    pub fn row_parts(&self) -> (res: Vec<String>)
        ensures
            res.len() == 4,
            res[0]@ == self.name@,
            res[1]@ == self.description@,
            res[2]@ == decimal(self.points as nat),
            res[3]@ == solved_cell(self.solved),
    {
        let mut parts: Vec<String> = Vec::new();
        parts.push(self.name.clone());
        parts.push(self.description.clone());
        parts.push(decimal_string(self.points));
        if self.solved {
            parts.push(String::from_str("SOLVED"));
        } else {
            parts.push(String::new());
        }
        parts
    }
}

/// A flag's preview title is its name, a line break, "Points - ", then the flag's points written
/// out in full, digits only, with no leading zero, reading back as exactly those points, and
/// last " - SOLVED" when the flag is solved; the numeral is the one in the Points cell of the
/// flag's table row.
pub proof fn law_preview_shows_points(name: Seq<char>, points: u64, solved: bool)
    ensures
        exists|digits: Seq<char>|
            {
                &&& preview_title_text(name, points, solved) == name + "\nPoints - "@ + digits + (
                if solved {
                    " - SOLVED"@
                } else {
                    Seq::<char>::empty()
                })
                &&& all_digits(digits)
                &&& digits.len() >= 1
                &&& numeral_value(digits) == points
                &&& (points > 0 ==> digits[0] != '0')
                &&& digits == decimal(points as nat)
            },
{
    law_decimal_reads_back(points as nat);
    let digits = decimal(points as nat);
    assert(preview_title_text(name, points, solved) == name + "\nPoints - "@ + digits + (if solved {
        " - SOLVED"@
    } else {
        Seq::<char>::empty()
    }));
}

} // verus!
