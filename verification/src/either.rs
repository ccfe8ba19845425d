//! The tagged results of a race: one enum for each number of operands, with
//! one variant for each position.

use crate::operands::Winner;
use crate::operands::Winner::{Here, There};
use vstd::prelude::*;

verus! {

/// The output of a race between two operations: the output of the one that
/// won, tagged with its position.
pub enum Either<T0, T1> {
    /// The first operand won.
    First(T0),
    /// The second operand won.
    Second(T1),
}

impl<T0, T1> Either<T0, T1> {
    /// The position of the winner in declared order, counted from 0.
    pub open spec fn position(&self) -> int {
        match self {
            Either::First(_) => 0,
            Either::Second(_) => 1,
        }
    }

    /// What a list of two operands has won, as a result of the race: the
    /// same output, tagged with the position in which the list has placed it.
    pub open spec fn tagged(won: Winner<T0, T1>) -> Self {
        match won {
            Here(output) => Either::First(output),
            There(output) => Either::Second(output),
        }
    }

    /// Tags what a list of two operands has won with the position in which
    /// the list has placed it.
    pub fn tag(won: Winner<T0, T1>) -> (output: Self)
        ensures
            output == Self::tagged(won),
    {
        match won {
            Here(output) => Either::First(output),
            There(output) => Either::Second(output),
        }
    }
}

/// The output of a race between three operations: the output of the one that
/// won, tagged with its position.
pub enum Either3<T0, T1, T2> {
    /// The first operand won.
    First(T0),
    /// The second operand won.
    Second(T1),
    /// The third operand won.
    Third(T2),
}

impl<T0, T1, T2> Either3<T0, T1, T2> {
    /// The position of the winner in declared order, counted from 0.
    pub open spec fn position(&self) -> int {
        match self {
            Either3::First(_) => 0,
            Either3::Second(_) => 1,
            Either3::Third(_) => 2,
        }
    }

    /// What a list of three operands has won, as a result of the race: the
    /// same output, tagged with the position in which the list has placed it.
    pub open spec fn tagged(won: Winner<T0, Winner<T1, T2>>) -> Self {
        match won {
            Here(output) => Either3::First(output),
            There(Here(output)) => Either3::Second(output),
            There(There(output)) => Either3::Third(output),
        }
    }

    /// Tags what a list of three operands has won with the position in which
    /// the list has placed it.
    pub fn tag(won: Winner<T0, Winner<T1, T2>>) -> (output: Self)
        ensures
            output == Self::tagged(won),
    {
        match won {
            Here(output) => Either3::First(output),
            There(Here(output)) => Either3::Second(output),
            There(There(output)) => Either3::Third(output),
        }
    }
}

/// The output of a race between four operations: the output of the one that
/// won, tagged with its position.
pub enum Either4<T0, T1, T2, T3> {
    /// The first operand won.
    First(T0),
    /// The second operand won.
    Second(T1),
    /// The third operand won.
    Third(T2),
    /// The fourth operand won.
    Fourth(T3),
}

impl<T0, T1, T2, T3> Either4<T0, T1, T2, T3> {
    /// The position of the winner in declared order, counted from 0.
    pub open spec fn position(&self) -> int {
        match self {
            Either4::First(_) => 0,
            Either4::Second(_) => 1,
            Either4::Third(_) => 2,
            Either4::Fourth(_) => 3,
        }
    }

    /// What a list of four operands has won, as a result of the race: the
    /// same output, tagged with the position in which the list has placed it.
    pub open spec fn tagged(won: Winner<T0, Winner<T1, Winner<T2, T3>>>) -> Self {
        match won {
            Here(output) => Either4::First(output),
            There(Here(output)) => Either4::Second(output),
            There(There(Here(output))) => Either4::Third(output),
            There(There(There(output))) => Either4::Fourth(output),
        }
    }

    /// Tags what a list of four operands has won with the position in which
    /// the list has placed it.
    pub fn tag(won: Winner<T0, Winner<T1, Winner<T2, T3>>>) -> (output: Self)
        ensures
            output == Self::tagged(won),
    {
        match won {
            Here(output) => Either4::First(output),
            There(Here(output)) => Either4::Second(output),
            There(There(Here(output))) => Either4::Third(output),
            There(There(There(output))) => Either4::Fourth(output),
        }
    }
}

/// The output of a race between five operations: the output of the one that
/// won, tagged with its position.
pub enum Either5<T0, T1, T2, T3, T4> {
    /// The first operand won.
    First(T0),
    /// The second operand won.
    Second(T1),
    /// The third operand won.
    Third(T2),
    /// The fourth operand won.
    Fourth(T3),
    /// The fifth operand won.
    Fifth(T4),
}

impl<T0, T1, T2, T3, T4> Either5<T0, T1, T2, T3, T4> {
    /// The position of the winner in declared order, counted from 0.
    pub open spec fn position(&self) -> int {
        match self {
            Either5::First(_) => 0,
            Either5::Second(_) => 1,
            Either5::Third(_) => 2,
            Either5::Fourth(_) => 3,
            Either5::Fifth(_) => 4,
        }
    }

    /// What a list of five operands has won, as a result of the race: the
    /// same output, tagged with the position in which the list has placed it.
    pub open spec fn tagged(won: Winner<T0, Winner<T1, Winner<T2, Winner<T3, T4>>>>) -> Self {
        match won {
            Here(output) => Either5::First(output),
            There(Here(output)) => Either5::Second(output),
            There(There(Here(output))) => Either5::Third(output),
            There(There(There(Here(output)))) => Either5::Fourth(output),
            There(There(There(There(output)))) => Either5::Fifth(output),
        }
    }

    /// Tags what a list of five operands has won with the position in which
    /// the list has placed it.
    pub fn tag(won: Winner<T0, Winner<T1, Winner<T2, Winner<T3, T4>>>>) -> (output: Self)
        ensures
            output == Self::tagged(won),
    {
        match won {
            Here(output) => Either5::First(output),
            There(Here(output)) => Either5::Second(output),
            There(There(Here(output))) => Either5::Third(output),
            There(There(There(Here(output)))) => Either5::Fourth(output),
            There(There(There(There(output)))) => Either5::Fifth(output),
        }
    }
}

/// The output of a race between six operations: the output of the one that
/// won, tagged with its position.
pub enum Either6<T0, T1, T2, T3, T4, T5> {
    /// The first operand won.
    First(T0),
    /// The second operand won.
    Second(T1),
    /// The third operand won.
    Third(T2),
    /// The fourth operand won.
    Fourth(T3),
    /// The fifth operand won.
    Fifth(T4),
    /// The sixth operand won.
    Sixth(T5),
}

impl<T0, T1, T2, T3, T4, T5> Either6<T0, T1, T2, T3, T4, T5> {
    /// The position of the winner in declared order, counted from 0.
    pub open spec fn position(&self) -> int {
        match self {
            Either6::First(_) => 0,
            Either6::Second(_) => 1,
            Either6::Third(_) => 2,
            Either6::Fourth(_) => 3,
            Either6::Fifth(_) => 4,
            Either6::Sixth(_) => 5,
        }
    }

    /// What a list of six operands has won, as a result of the race: the
    /// same output, tagged with the position in which the list has placed it.
    pub open spec fn tagged(won: Winner<T0, Winner<T1, Winner<T2, Winner<T3, Winner<T4, T5>>>>>) -> Self {
        match won {
            Here(output) => Either6::First(output),
            There(Here(output)) => Either6::Second(output),
            There(There(Here(output))) => Either6::Third(output),
            There(There(There(Here(output)))) => Either6::Fourth(output),
            There(There(There(There(Here(output))))) => Either6::Fifth(output),
            There(There(There(There(There(output))))) => Either6::Sixth(output),
        }
    }

    /// Tags what a list of six operands has won with the position in which
    /// the list has placed it.
    pub fn tag(won: Winner<T0, Winner<T1, Winner<T2, Winner<T3, Winner<T4, T5>>>>>) -> (output: Self)
        ensures
            output == Self::tagged(won),
    {
        match won {
            Here(output) => Either6::First(output),
            There(Here(output)) => Either6::Second(output),
            There(There(Here(output))) => Either6::Third(output),
            There(There(There(Here(output)))) => Either6::Fourth(output),
            There(There(There(There(Here(output))))) => Either6::Fifth(output),
            There(There(There(There(There(output))))) => Either6::Sixth(output),
        }
    }
}

/// The output of a race between seven operations: the output of the one that
/// won, tagged with its position.
pub enum Either7<T0, T1, T2, T3, T4, T5, T6> {
    /// The first operand won.
    First(T0),
    /// The second operand won.
    Second(T1),
    /// The third operand won.
    Third(T2),
    /// The fourth operand won.
    Fourth(T3),
    /// The fifth operand won.
    Fifth(T4),
    /// The sixth operand won.
    Sixth(T5),
    /// The seventh operand won.
    Seventh(T6),
}

impl<T0, T1, T2, T3, T4, T5, T6> Either7<T0, T1, T2, T3, T4, T5, T6> {
    /// The position of the winner in declared order, counted from 0.
    pub open spec fn position(&self) -> int {
        match self {
            Either7::First(_) => 0,
            Either7::Second(_) => 1,
            Either7::Third(_) => 2,
            Either7::Fourth(_) => 3,
            Either7::Fifth(_) => 4,
            Either7::Sixth(_) => 5,
            Either7::Seventh(_) => 6,
        }
    }

    /// What a list of seven operands has won, as a result of the race: the
    /// same output, tagged with the position in which the list has placed it.
    pub open spec fn tagged(won: Winner<T0, Winner<T1, Winner<T2, Winner<T3, Winner<T4,
        Winner<T5, T6>>>>>>) -> Self {
        match won {
            Here(output) => Either7::First(output),
            There(Here(output)) => Either7::Second(output),
            There(There(Here(output))) => Either7::Third(output),
            There(There(There(Here(output)))) => Either7::Fourth(output),
            There(There(There(There(Here(output))))) => Either7::Fifth(output),
            There(There(There(There(There(Here(output)))))) => Either7::Sixth(output),
            There(There(There(There(There(There(output)))))) => Either7::Seventh(output),
        }
    }

    /// Tags what a list of seven operands has won with the position in which
    /// the list has placed it.
    pub fn tag(won: Winner<T0, Winner<T1, Winner<T2, Winner<T3, Winner<T4, Winner<T5, T6>>>>>>) -> (output: Self)
        ensures
            output == Self::tagged(won),
    {
        match won {
            Here(output) => Either7::First(output),
            There(Here(output)) => Either7::Second(output),
            There(There(Here(output))) => Either7::Third(output),
            There(There(There(Here(output)))) => Either7::Fourth(output),
            There(There(There(There(Here(output))))) => Either7::Fifth(output),
            There(There(There(There(There(Here(output)))))) => Either7::Sixth(output),
            There(There(There(There(There(There(output)))))) => Either7::Seventh(output),
        }
    }
}

/// The output of a race between eight operations: the output of the one that
/// won, tagged with its position.
pub enum Either8<T0, T1, T2, T3, T4, T5, T6, T7> {
    /// The first operand won.
    First(T0),
    /// The second operand won.
    Second(T1),
    /// The third operand won.
    Third(T2),
    /// The fourth operand won.
    Fourth(T3),
    /// The fifth operand won.
    Fifth(T4),
    /// The sixth operand won.
    Sixth(T5),
    /// The seventh operand won.
    Seventh(T6),
    /// The eighth operand won.
    Eighth(T7),
}

impl<T0, T1, T2, T3, T4, T5, T6, T7> Either8<T0, T1, T2, T3, T4, T5, T6, T7> {
    /// The position of the winner in declared order, counted from 0.
    pub open spec fn position(&self) -> int {
        match self {
            Either8::First(_) => 0,
            Either8::Second(_) => 1,
            Either8::Third(_) => 2,
            Either8::Fourth(_) => 3,
            Either8::Fifth(_) => 4,
            Either8::Sixth(_) => 5,
            Either8::Seventh(_) => 6,
            Either8::Eighth(_) => 7,
        }
    }

    /// What a list of eight operands has won, as a result of the race: the
    /// same output, tagged with the position in which the list has placed it.
    pub open spec fn tagged(won: Winner<T0, Winner<T1, Winner<T2, Winner<T3, Winner<T4,
        Winner<T5, Winner<T6, T7>>>>>>>) -> Self {
        match won {
            Here(output) => Either8::First(output),
            There(Here(output)) => Either8::Second(output),
            There(There(Here(output))) => Either8::Third(output),
            There(There(There(Here(output)))) => Either8::Fourth(output),
            There(There(There(There(Here(output))))) => Either8::Fifth(output),
            There(There(There(There(There(Here(output)))))) => Either8::Sixth(output),
            There(There(There(There(There(There(Here(output))))))) => Either8::Seventh(output),
            There(There(There(There(There(There(There(output))))))) => Either8::Eighth(output),
        }
    }

    /// Tags what a list of eight operands has won with the position in which
    /// the list has placed it.
    pub fn tag(won: Winner<T0, Winner<T1, Winner<T2, Winner<T3, Winner<T4, Winner<T5, Winner<T6,
        T7>>>>>>>) -> (output: Self)
        ensures
            output == Self::tagged(won),
    {
        match won {
            Here(output) => Either8::First(output),
            There(Here(output)) => Either8::Second(output),
            There(There(Here(output))) => Either8::Third(output),
            There(There(There(Here(output)))) => Either8::Fourth(output),
            There(There(There(There(Here(output))))) => Either8::Fifth(output),
            There(There(There(There(There(Here(output)))))) => Either8::Sixth(output),
            There(There(There(There(There(There(Here(output))))))) => Either8::Seventh(output),
            There(There(There(There(There(There(There(output))))))) => Either8::Eighth(output),
        }
    }
}

/// The output of a race between nine operations: the output of the one that
/// won, tagged with its position.
pub enum Either9<T0, T1, T2, T3, T4, T5, T6, T7, T8> {
    /// The first operand won.
    First(T0),
    /// The second operand won.
    Second(T1),
    /// The third operand won.
    Third(T2),
    /// The fourth operand won.
    Fourth(T3),
    /// The fifth operand won.
    Fifth(T4),
    /// The sixth operand won.
    Sixth(T5),
    /// The seventh operand won.
    Seventh(T6),
    /// The eighth operand won.
    Eighth(T7),
    /// The ninth operand won.
    Ninth(T8),
}

impl<T0, T1, T2, T3, T4, T5, T6, T7, T8> Either9<T0, T1, T2, T3, T4, T5, T6, T7, T8> {
    /// The position of the winner in declared order, counted from 0.
    pub open spec fn position(&self) -> int {
        match self {
            Either9::First(_) => 0,
            Either9::Second(_) => 1,
            Either9::Third(_) => 2,
            Either9::Fourth(_) => 3,
            Either9::Fifth(_) => 4,
            Either9::Sixth(_) => 5,
            Either9::Seventh(_) => 6,
            Either9::Eighth(_) => 7,
            Either9::Ninth(_) => 8,
        }
    }

    /// What a list of nine operands has won, as a result of the race: the
    /// same output, tagged with the position in which the list has placed it.
    pub open spec fn tagged(won: Winner<T0, Winner<T1, Winner<T2, Winner<T3, Winner<T4,
        Winner<T5, Winner<T6, Winner<T7, T8>>>>>>>>) -> Self {
        match won {
            Here(output) => Either9::First(output),
            There(Here(output)) => Either9::Second(output),
            There(There(Here(output))) => Either9::Third(output),
            There(There(There(Here(output)))) => Either9::Fourth(output),
            There(There(There(There(Here(output))))) => Either9::Fifth(output),
            There(There(There(There(There(Here(output)))))) => Either9::Sixth(output),
            There(There(There(There(There(There(Here(output))))))) => Either9::Seventh(output),
            There(There(There(There(There(There(There(Here(output)))))))) => {
                Either9::Eighth(output)
            },
            There(There(There(There(There(There(There(There(output)))))))) => {
                Either9::Ninth(output)
            },
        }
    }

    /// Tags what a list of nine operands has won with the position in which
    /// the list has placed it.
    pub fn tag(won: Winner<T0, Winner<T1, Winner<T2, Winner<T3, Winner<T4, Winner<T5, Winner<T6,
        Winner<T7, T8>>>>>>>>) -> (output: Self)
        ensures
            output == Self::tagged(won),
    {
        match won {
            Here(output) => Either9::First(output),
            There(Here(output)) => Either9::Second(output),
            There(There(Here(output))) => Either9::Third(output),
            There(There(There(Here(output)))) => Either9::Fourth(output),
            There(There(There(There(Here(output))))) => Either9::Fifth(output),
            There(There(There(There(There(Here(output)))))) => Either9::Sixth(output),
            There(There(There(There(There(There(Here(output))))))) => Either9::Seventh(output),
            There(There(There(There(There(There(There(Here(output)))))))) => {
                Either9::Eighth(output)
            },
            There(There(There(There(There(There(There(There(output)))))))) => {
                Either9::Ninth(output)
            },
        }
    }
}

/// The output of a race between ten operations: the output of the one that
/// won, tagged with its position.
pub enum Either10<T0, T1, T2, T3, T4, T5, T6, T7, T8, T9> {
    /// The first operand won.
    First(T0),
    /// The second operand won.
    Second(T1),
    /// The third operand won.
    Third(T2),
    /// The fourth operand won.
    Fourth(T3),
    /// The fifth operand won.
    Fifth(T4),
    /// The sixth operand won.
    Sixth(T5),
    /// The seventh operand won.
    Seventh(T6),
    /// The eighth operand won.
    Eighth(T7),
    /// The ninth operand won.
    Ninth(T8),
    /// The tenth operand won.
    Tenth(T9),
}

impl<T0, T1, T2, T3, T4, T5, T6, T7, T8, T9> Either10<T0, T1, T2, T3, T4, T5, T6, T7, T8, T9> {
    /// The position of the winner in declared order, counted from 0.
    pub open spec fn position(&self) -> int {
        match self {
            Either10::First(_) => 0,
            Either10::Second(_) => 1,
            Either10::Third(_) => 2,
            Either10::Fourth(_) => 3,
            Either10::Fifth(_) => 4,
            Either10::Sixth(_) => 5,
            Either10::Seventh(_) => 6,
            Either10::Eighth(_) => 7,
            Either10::Ninth(_) => 8,
            Either10::Tenth(_) => 9,
        }
    }

    /// What a list of ten operands has won, as a result of the race: the
    /// same output, tagged with the position in which the list has placed it.
    pub open spec fn tagged(won: Winner<T0, Winner<T1, Winner<T2, Winner<T3, Winner<T4,
        Winner<T5, Winner<T6, Winner<T7, Winner<T8, T9>>>>>>>>>) -> Self {
        match won {
            Here(output) => Either10::First(output),
            There(Here(output)) => Either10::Second(output),
            There(There(Here(output))) => Either10::Third(output),
            There(There(There(Here(output)))) => Either10::Fourth(output),
            There(There(There(There(Here(output))))) => Either10::Fifth(output),
            There(There(There(There(There(Here(output)))))) => Either10::Sixth(output),
            There(There(There(There(There(There(Here(output))))))) => Either10::Seventh(output),
            There(There(There(There(There(There(There(Here(output)))))))) => {
                Either10::Eighth(output)
            },
            There(There(There(There(There(There(There(There(Here(output))))))))) => {
                Either10::Ninth(output)
            },
            There(There(There(There(There(There(There(There(There(output))))))))) => {
                Either10::Tenth(output)
            },
        }
    }

    /// Tags what a list of ten operands has won with the position in which
    /// the list has placed it.
    pub fn tag(won: Winner<T0, Winner<T1, Winner<T2, Winner<T3, Winner<T4, Winner<T5, Winner<T6,
        Winner<T7, Winner<T8, T9>>>>>>>>>) -> (output: Self)
        ensures
            output == Self::tagged(won),
    {
        match won {
            Here(output) => Either10::First(output),
            There(Here(output)) => Either10::Second(output),
            There(There(Here(output))) => Either10::Third(output),
            There(There(There(Here(output)))) => Either10::Fourth(output),
            There(There(There(There(Here(output))))) => Either10::Fifth(output),
            There(There(There(There(There(Here(output)))))) => Either10::Sixth(output),
            There(There(There(There(There(There(Here(output))))))) => Either10::Seventh(output),
            There(There(There(There(There(There(There(Here(output)))))))) => {
                Either10::Eighth(output)
            },
            There(There(There(There(There(There(There(There(Here(output))))))))) => {
                Either10::Ninth(output)
            },
            There(There(There(There(There(There(There(There(There(output))))))))) => {
                Either10::Tenth(output)
            },
        }
    }
}

/// The output of a race between eleven operations: the output of the one that
/// won, tagged with its position.
pub enum Either11<T0, T1, T2, T3, T4, T5, T6, T7, T8, T9, T10> {
    /// The first operand won.
    First(T0),
    /// The second operand won.
    Second(T1),
    /// The third operand won.
    Third(T2),
    /// The fourth operand won.
    Fourth(T3),
    /// The fifth operand won.
    Fifth(T4),
    /// The sixth operand won.
    Sixth(T5),
    /// The seventh operand won.
    Seventh(T6),
    /// The eighth operand won.
    Eighth(T7),
    /// The ninth operand won.
    Ninth(T8),
    /// The tenth operand won.
    Tenth(T9),
    /// The eleventh operand won.
    Eleventh(T10),
}

impl<
    T0, T1, T2, T3, T4, T5, T6, T7, T8, T9, T10,
> Either11<
    T0, T1, T2, T3, T4, T5, T6, T7, T8, T9, T10,
> {
    /// The position of the winner in declared order, counted from 0.
    pub open spec fn position(&self) -> int {
        match self {
            Either11::First(_) => 0,
            Either11::Second(_) => 1,
            Either11::Third(_) => 2,
            Either11::Fourth(_) => 3,
            Either11::Fifth(_) => 4,
            Either11::Sixth(_) => 5,
            Either11::Seventh(_) => 6,
            Either11::Eighth(_) => 7,
            Either11::Ninth(_) => 8,
            Either11::Tenth(_) => 9,
            Either11::Eleventh(_) => 10,
        }
    }

    /// What a list of eleven operands has won, as a result of the race: the
    /// same output, tagged with the position in which the list has placed it.
    pub open spec fn tagged(won: Winner<T0, Winner<T1, Winner<T2, Winner<T3, Winner<T4,
        Winner<T5, Winner<T6, Winner<T7, Winner<T8, Winner<T9, T10>>>>>>>>>>) -> Self {
        match won {
            Here(output) => Either11::First(output),
            There(Here(output)) => Either11::Second(output),
            There(There(Here(output))) => Either11::Third(output),
            There(There(There(Here(output)))) => Either11::Fourth(output),
            There(There(There(There(Here(output))))) => Either11::Fifth(output),
            There(There(There(There(There(Here(output)))))) => Either11::Sixth(output),
            There(There(There(There(There(There(Here(output))))))) => Either11::Seventh(output),
            There(There(There(There(There(There(There(Here(output)))))))) => {
                Either11::Eighth(output)
            },
            There(There(There(There(There(There(There(There(Here(output))))))))) => {
                Either11::Ninth(output)
            },
            There(There(There(There(There(There(There(There(There(Here(output)))))))))) => {
                Either11::Tenth(output)
            },
            There(There(There(There(There(There(There(There(There(There(output)))))))))) => {
                Either11::Eleventh(output)
            },
        }
    }

    /// Tags what a list of eleven operands has won with the position in which
    /// the list has placed it.
    pub fn tag(won: Winner<T0, Winner<T1, Winner<T2, Winner<T3, Winner<T4, Winner<T5, Winner<T6,
        Winner<T7, Winner<T8, Winner<T9, T10>>>>>>>>>>) -> (output: Self)
        ensures
            output == Self::tagged(won),
    {
        match won {
            Here(output) => Either11::First(output),
            There(Here(output)) => Either11::Second(output),
            There(There(Here(output))) => Either11::Third(output),
            There(There(There(Here(output)))) => Either11::Fourth(output),
            There(There(There(There(Here(output))))) => Either11::Fifth(output),
            There(There(There(There(There(Here(output)))))) => Either11::Sixth(output),
            There(There(There(There(There(There(Here(output))))))) => Either11::Seventh(output),
            There(There(There(There(There(There(There(Here(output)))))))) => {
                Either11::Eighth(output)
            },
            There(There(There(There(There(There(There(There(Here(output))))))))) => {
                Either11::Ninth(output)
            },
            There(There(There(There(There(There(There(There(There(Here(output)))))))))) => {
                Either11::Tenth(output)
            },
            There(There(There(There(There(There(There(There(There(There(output)))))))))) => {
                Either11::Eleventh(output)
            },
        }
    }
}

/// The output of a race between twelve operations: the output of the one that
/// won, tagged with its position.
pub enum Either12<T0, T1, T2, T3, T4, T5, T6, T7, T8, T9, T10, T11> {
    /// The first operand won.
    First(T0),
    /// The second operand won.
    Second(T1),
    /// The third operand won.
    Third(T2),
    /// The fourth operand won.
    Fourth(T3),
    /// The fifth operand won.
    Fifth(T4),
    /// The sixth operand won.
    Sixth(T5),
    /// The seventh operand won.
    Seventh(T6),
    /// The eighth operand won.
    Eighth(T7),
    /// The ninth operand won.
    Ninth(T8),
    /// The tenth operand won.
    Tenth(T9),
    /// The eleventh operand won.
    Eleventh(T10),
    /// The twelfth operand won.
    Twelfth(T11),
}

impl<
    T0, T1, T2, T3, T4, T5, T6, T7, T8, T9, T10, T11,
> Either12<
    T0, T1, T2, T3, T4, T5, T6, T7, T8, T9, T10, T11,
> {
    /// The position of the winner in declared order, counted from 0.
    pub open spec fn position(&self) -> int {
        match self {
            Either12::First(_) => 0,
            Either12::Second(_) => 1,
            Either12::Third(_) => 2,
            Either12::Fourth(_) => 3,
            Either12::Fifth(_) => 4,
            Either12::Sixth(_) => 5,
            Either12::Seventh(_) => 6,
            Either12::Eighth(_) => 7,
            Either12::Ninth(_) => 8,
            Either12::Tenth(_) => 9,
            Either12::Eleventh(_) => 10,
            Either12::Twelfth(_) => 11,
        }
    }

    /// What a list of twelve operands has won, as a result of the race: the
    /// same output, tagged with the position in which the list has placed it.
    pub open spec fn tagged(won: Winner<T0, Winner<T1, Winner<T2, Winner<T3, Winner<T4,
        Winner<T5, Winner<T6, Winner<T7, Winner<T8, Winner<T9, Winner<T10, T11>>>>>>>>>>>) -> Self {
        match won {
            Here(output) => Either12::First(output),
            There(Here(output)) => Either12::Second(output),
            There(There(Here(output))) => Either12::Third(output),
            There(There(There(Here(output)))) => Either12::Fourth(output),
            There(There(There(There(Here(output))))) => Either12::Fifth(output),
            There(There(There(There(There(Here(output)))))) => Either12::Sixth(output),
            There(There(There(There(There(There(Here(output))))))) => Either12::Seventh(output),
            There(There(There(There(There(There(There(Here(output)))))))) => {
                Either12::Eighth(output)
            },
            There(There(There(There(There(There(There(There(Here(output))))))))) => {
                Either12::Ninth(output)
            },
            There(There(There(There(There(There(There(There(There(Here(output)))))))))) => {
                Either12::Tenth(output)
            },
            There(There(There(There(There(There(There(There(There(There(Here(output))))))))))) => {
                Either12::Eleventh(output)
            },
            There(There(There(There(There(There(There(There(There(There(There(output))))))))))) => {
                Either12::Twelfth(output)
            },
        }
    }

    /// Tags what a list of twelve operands has won with the position in which
    /// the list has placed it.
    pub fn tag(won: Winner<T0, Winner<T1, Winner<T2, Winner<T3, Winner<T4, Winner<T5, Winner<T6,
        Winner<T7, Winner<T8, Winner<T9, Winner<T10, T11>>>>>>>>>>>) -> (output: Self)
        ensures
            output == Self::tagged(won),
    {
        match won {
            Here(output) => Either12::First(output),
            There(Here(output)) => Either12::Second(output),
            There(There(Here(output))) => Either12::Third(output),
            There(There(There(Here(output)))) => Either12::Fourth(output),
            There(There(There(There(Here(output))))) => Either12::Fifth(output),
            There(There(There(There(There(Here(output)))))) => Either12::Sixth(output),
            There(There(There(There(There(There(Here(output))))))) => Either12::Seventh(output),
            There(There(There(There(There(There(There(Here(output)))))))) => {
                Either12::Eighth(output)
            },
            There(There(There(There(There(There(There(There(Here(output))))))))) => {
                Either12::Ninth(output)
            },
            There(There(There(There(There(There(There(There(There(Here(output)))))))))) => {
                Either12::Tenth(output)
            },
            There(There(There(There(There(There(There(There(There(There(Here(output))))))))))) => {
                Either12::Eleventh(output)
            },
            There(There(There(There(There(There(There(There(There(There(There(output))))))))))) => {
                Either12::Twelfth(output)
            },
        }
    }
}

/// The output of a race between thirteen operations: the output of the one that
/// won, tagged with its position.
pub enum Either13<T0, T1, T2, T3, T4, T5, T6, T7, T8, T9, T10, T11, T12> {
    /// The first operand won.
    First(T0),
    /// The second operand won.
    Second(T1),
    /// The third operand won.
    Third(T2),
    /// The fourth operand won.
    Fourth(T3),
    /// The fifth operand won.
    Fifth(T4),
    /// The sixth operand won.
    Sixth(T5),
    /// The seventh operand won.
    Seventh(T6),
    /// The eighth operand won.
    Eighth(T7),
    /// The ninth operand won.
    Ninth(T8),
    /// The tenth operand won.
    Tenth(T9),
    /// The eleventh operand won.
    Eleventh(T10),
    /// The twelfth operand won.
    Twelfth(T11),
    /// The thirteenth operand won.
    Thirteenth(T12),
}

impl<
    T0, T1, T2, T3, T4, T5, T6, T7, T8, T9, T10, T11, T12,
> Either13<
    T0, T1, T2, T3, T4, T5, T6, T7, T8, T9, T10, T11, T12,
> {
    /// The position of the winner in declared order, counted from 0.
    pub open spec fn position(&self) -> int {
        match self {
            Either13::First(_) => 0,
            Either13::Second(_) => 1,
            Either13::Third(_) => 2,
            Either13::Fourth(_) => 3,
            Either13::Fifth(_) => 4,
            Either13::Sixth(_) => 5,
            Either13::Seventh(_) => 6,
            Either13::Eighth(_) => 7,
            Either13::Ninth(_) => 8,
            Either13::Tenth(_) => 9,
            Either13::Eleventh(_) => 10,
            Either13::Twelfth(_) => 11,
            Either13::Thirteenth(_) => 12,
        }
    }

    /// What a list of thirteen operands has won, as a result of the race: the
    /// same output, tagged with the position in which the list has placed it.
    pub open spec fn tagged(won: Winner<T0, Winner<T1, Winner<T2, Winner<T3, Winner<T4,
        Winner<T5, Winner<T6, Winner<T7, Winner<T8, Winner<T9, Winner<T10, Winner<T11,
        T12>>>>>>>>>>>>) -> Self {
        match won {
            Here(output) => Either13::First(output),
            There(Here(output)) => Either13::Second(output),
            There(There(Here(output))) => Either13::Third(output),
            There(There(There(Here(output)))) => Either13::Fourth(output),
            There(There(There(There(Here(output))))) => Either13::Fifth(output),
            There(There(There(There(There(Here(output)))))) => Either13::Sixth(output),
            There(There(There(There(There(There(Here(output))))))) => Either13::Seventh(output),
            There(There(There(There(There(There(There(Here(output)))))))) => {
                Either13::Eighth(output)
            },
            There(There(There(There(There(There(There(There(Here(output))))))))) => {
                Either13::Ninth(output)
            },
            There(There(There(There(There(There(There(There(There(Here(output)))))))))) => {
                Either13::Tenth(output)
            },
            There(There(There(There(There(There(There(There(There(There(Here(output))))))))))) => {
                Either13::Eleventh(output)
            },
            There(There(There(There(There(There(There(There(There(There(There(Here(output)))))))))))) => {
                Either13::Twelfth(output)
            },
            There(There(There(There(There(There(There(There(There(There(There(There(output)))))))))))) => {
                Either13::Thirteenth(output)
            },
        }
    }

    /// Tags what a list of thirteen operands has won with the position in which
    /// the list has placed it.
    pub fn tag(won: Winner<T0, Winner<T1, Winner<T2, Winner<T3, Winner<T4, Winner<T5, Winner<T6,
        Winner<T7, Winner<T8, Winner<T9, Winner<T10, Winner<T11, T12>>>>>>>>>>>>) -> (output: Self)
        ensures
            output == Self::tagged(won),
    {
        match won {
            Here(output) => Either13::First(output),
            There(Here(output)) => Either13::Second(output),
            There(There(Here(output))) => Either13::Third(output),
            There(There(There(Here(output)))) => Either13::Fourth(output),
            There(There(There(There(Here(output))))) => Either13::Fifth(output),
            There(There(There(There(There(Here(output)))))) => Either13::Sixth(output),
            There(There(There(There(There(There(Here(output))))))) => Either13::Seventh(output),
            There(There(There(There(There(There(There(Here(output)))))))) => {
                Either13::Eighth(output)
            },
            There(There(There(There(There(There(There(There(Here(output))))))))) => {
                Either13::Ninth(output)
            },
            There(There(There(There(There(There(There(There(There(Here(output)))))))))) => {
                Either13::Tenth(output)
            },
            There(There(There(There(There(There(There(There(There(There(Here(output))))))))))) => {
                Either13::Eleventh(output)
            },
            There(There(There(There(There(There(There(There(There(There(There(Here(output)))))))))))) => {
                Either13::Twelfth(output)
            },
            There(There(There(There(There(There(There(There(There(There(There(There(output)))))))))))) => {
                Either13::Thirteenth(output)
            },
        }
    }
}

/// The output of a race between fourteen operations: the output of the one that
/// won, tagged with its position.
pub enum Either14<T0, T1, T2, T3, T4, T5, T6, T7, T8, T9, T10, T11, T12, T13> {
    /// The first operand won.
    First(T0),
    /// The second operand won.
    Second(T1),
    /// The third operand won.
    Third(T2),
    /// The fourth operand won.
    Fourth(T3),
    /// The fifth operand won.
    Fifth(T4),
    /// The sixth operand won.
    Sixth(T5),
    /// The seventh operand won.
    Seventh(T6),
    /// The eighth operand won.
    Eighth(T7),
    /// The ninth operand won.
    Ninth(T8),
    /// The tenth operand won.
    Tenth(T9),
    /// The eleventh operand won.
    Eleventh(T10),
    /// The twelfth operand won.
    Twelfth(T11),
    /// The thirteenth operand won.
    Thirteenth(T12),
    /// The fourteenth operand won.
    Fourteenth(T13),
}

impl<
    T0, T1, T2, T3, T4, T5, T6, T7, T8, T9, T10, T11, T12, T13,
> Either14<
    T0, T1, T2, T3, T4, T5, T6, T7, T8, T9, T10, T11, T12, T13,
> {
    /// The position of the winner in declared order, counted from 0.
    pub open spec fn position(&self) -> int {
        match self {
            Either14::First(_) => 0,
            Either14::Second(_) => 1,
            Either14::Third(_) => 2,
            Either14::Fourth(_) => 3,
            Either14::Fifth(_) => 4,
            Either14::Sixth(_) => 5,
            Either14::Seventh(_) => 6,
            Either14::Eighth(_) => 7,
            Either14::Ninth(_) => 8,
            Either14::Tenth(_) => 9,
            Either14::Eleventh(_) => 10,
            Either14::Twelfth(_) => 11,
            Either14::Thirteenth(_) => 12,
            Either14::Fourteenth(_) => 13,
        }
    }

    /// What a list of fourteen operands has won, as a result of the race: the
    /// same output, tagged with the position in which the list has placed it.
    pub open spec fn tagged(won: Winner<T0, Winner<T1, Winner<T2, Winner<T3, Winner<T4,
        Winner<T5, Winner<T6, Winner<T7, Winner<T8, Winner<T9, Winner<T10, Winner<T11,
        Winner<T12, T13>>>>>>>>>>>>>) -> Self {
        match won {
            Here(output) => Either14::First(output),
            There(Here(output)) => Either14::Second(output),
            There(There(Here(output))) => Either14::Third(output),
            There(There(There(Here(output)))) => Either14::Fourth(output),
            There(There(There(There(Here(output))))) => Either14::Fifth(output),
            There(There(There(There(There(Here(output)))))) => Either14::Sixth(output),
            There(There(There(There(There(There(Here(output))))))) => Either14::Seventh(output),
            There(There(There(There(There(There(There(Here(output)))))))) => {
                Either14::Eighth(output)
            },
            There(There(There(There(There(There(There(There(Here(output))))))))) => {
                Either14::Ninth(output)
            },
            There(There(There(There(There(There(There(There(There(Here(output)))))))))) => {
                Either14::Tenth(output)
            },
            There(There(There(There(There(There(There(There(There(There(Here(output))))))))))) => {
                Either14::Eleventh(output)
            },
            There(There(There(There(There(There(There(There(There(There(There(Here(output)))))))))))) => {
                Either14::Twelfth(output)
            },
            There(There(There(There(There(There(There(There(There(There(There(There(Here(output))))))))))))) => {
                Either14::Thirteenth(output)
            },
            There(There(There(There(There(There(There(There(There(There(There(There(There(output))))))))))))) => {
                Either14::Fourteenth(output)
            },
        }
    }

    /// Tags what a list of fourteen operands has won with the position in which
    /// the list has placed it.
    pub fn tag(won: Winner<T0, Winner<T1, Winner<T2, Winner<T3, Winner<T4, Winner<T5, Winner<T6,
        Winner<T7, Winner<T8, Winner<T9, Winner<T10, Winner<T11, Winner<T12, T13>>>>>>>>>>>>>) -> (output: Self)
        ensures
            output == Self::tagged(won),
    {
        match won {
            Here(output) => Either14::First(output),
            There(Here(output)) => Either14::Second(output),
            There(There(Here(output))) => Either14::Third(output),
            There(There(There(Here(output)))) => Either14::Fourth(output),
            There(There(There(There(Here(output))))) => Either14::Fifth(output),
            There(There(There(There(There(Here(output)))))) => Either14::Sixth(output),
            There(There(There(There(There(There(Here(output))))))) => Either14::Seventh(output),
            There(There(There(There(There(There(There(Here(output)))))))) => {
                Either14::Eighth(output)
            },
            There(There(There(There(There(There(There(There(Here(output))))))))) => {
                Either14::Ninth(output)
            },
            There(There(There(There(There(There(There(There(There(Here(output)))))))))) => {
                Either14::Tenth(output)
            },
            There(There(There(There(There(There(There(There(There(There(Here(output))))))))))) => {
                Either14::Eleventh(output)
            },
            There(There(There(There(There(There(There(There(There(There(There(Here(output)))))))))))) => {
                Either14::Twelfth(output)
            },
            There(There(There(There(There(There(There(There(There(There(There(There(Here(output))))))))))))) => {
                Either14::Thirteenth(output)
            },
            There(There(There(There(There(There(There(There(There(There(There(There(There(output))))))))))))) => {
                Either14::Fourteenth(output)
            },
        }
    }
}

/// The output of a race between fifteen operations: the output of the one that
/// won, tagged with its position.
pub enum Either15<T0, T1, T2, T3, T4, T5, T6, T7, T8, T9, T10, T11, T12, T13, T14> {
    /// The first operand won.
    First(T0),
    /// The second operand won.
    Second(T1),
    /// The third operand won.
    Third(T2),
    /// The fourth operand won.
    Fourth(T3),
    /// The fifth operand won.
    Fifth(T4),
    /// The sixth operand won.
    Sixth(T5),
    /// The seventh operand won.
    Seventh(T6),
    /// The eighth operand won.
    Eighth(T7),
    /// The ninth operand won.
    Ninth(T8),
    /// The tenth operand won.
    Tenth(T9),
    /// The eleventh operand won.
    Eleventh(T10),
    /// The twelfth operand won.
    Twelfth(T11),
    /// The thirteenth operand won.
    Thirteenth(T12),
    /// The fourteenth operand won.
    Fourteenth(T13),
    /// The fifteenth operand won.
    Fifteenth(T14),
}

impl<
    T0, T1, T2, T3, T4, T5, T6, T7, T8, T9, T10, T11, T12, T13, T14,
> Either15<
    T0, T1, T2, T3, T4, T5, T6, T7, T8, T9, T10, T11, T12, T13, T14,
> {
    /// The position of the winner in declared order, counted from 0.
    pub open spec fn position(&self) -> int {
        match self {
            Either15::First(_) => 0,
            Either15::Second(_) => 1,
            Either15::Third(_) => 2,
            Either15::Fourth(_) => 3,
            Either15::Fifth(_) => 4,
            Either15::Sixth(_) => 5,
            Either15::Seventh(_) => 6,
            Either15::Eighth(_) => 7,
            Either15::Ninth(_) => 8,
            Either15::Tenth(_) => 9,
            Either15::Eleventh(_) => 10,
            Either15::Twelfth(_) => 11,
            Either15::Thirteenth(_) => 12,
            Either15::Fourteenth(_) => 13,
            Either15::Fifteenth(_) => 14,
        }
    }

    /// What a list of fifteen operands has won, as a result of the race: the
    /// same output, tagged with the position in which the list has placed it.
    pub open spec fn tagged(won: Winner<T0, Winner<T1, Winner<T2, Winner<T3, Winner<T4,
        Winner<T5, Winner<T6, Winner<T7, Winner<T8, Winner<T9, Winner<T10, Winner<T11,
        Winner<T12, Winner<T13, T14>>>>>>>>>>>>>>) -> Self {
        match won {
            Here(output) => Either15::First(output),
            There(Here(output)) => Either15::Second(output),
            There(There(Here(output))) => Either15::Third(output),
            There(There(There(Here(output)))) => Either15::Fourth(output),
            There(There(There(There(Here(output))))) => Either15::Fifth(output),
            There(There(There(There(There(Here(output)))))) => Either15::Sixth(output),
            There(There(There(There(There(There(Here(output))))))) => Either15::Seventh(output),
            There(There(There(There(There(There(There(Here(output)))))))) => {
                Either15::Eighth(output)
            },
            There(There(There(There(There(There(There(There(Here(output))))))))) => {
                Either15::Ninth(output)
            },
            There(There(There(There(There(There(There(There(There(Here(output)))))))))) => {
                Either15::Tenth(output)
            },
            There(There(There(There(There(There(There(There(There(There(Here(output))))))))))) => {
                Either15::Eleventh(output)
            },
            There(There(There(There(There(There(There(There(There(There(There(Here(output)))))))))))) => {
                Either15::Twelfth(output)
            },
            There(There(There(There(There(There(There(There(There(There(There(There(Here(output))))))))))))) => {
                Either15::Thirteenth(output)
            },
            There(There(There(There(There(There(There(There(There(There(There(There(There(Here(output)))))))))))))) => {
                Either15::Fourteenth(output)
            },
            There(There(There(There(There(There(There(There(There(There(There(There(There(There(output)))))))))))))) => {
                Either15::Fifteenth(output)
            },
        }
    }

    /// Tags what a list of fifteen operands has won with the position in which
    /// the list has placed it.
    pub fn tag(won: Winner<T0, Winner<T1, Winner<T2, Winner<T3, Winner<T4, Winner<T5, Winner<T6,
        Winner<T7, Winner<T8, Winner<T9, Winner<T10, Winner<T11, Winner<T12, Winner<T13,
        T14>>>>>>>>>>>>>>) -> (output: Self)
        ensures
            output == Self::tagged(won),
    {
        match won {
            Here(output) => Either15::First(output),
            There(Here(output)) => Either15::Second(output),
            There(There(Here(output))) => Either15::Third(output),
            There(There(There(Here(output)))) => Either15::Fourth(output),
            There(There(There(There(Here(output))))) => Either15::Fifth(output),
            There(There(There(There(There(Here(output)))))) => Either15::Sixth(output),
            There(There(There(There(There(There(Here(output))))))) => Either15::Seventh(output),
            There(There(There(There(There(There(There(Here(output)))))))) => {
                Either15::Eighth(output)
            },
            There(There(There(There(There(There(There(There(Here(output))))))))) => {
                Either15::Ninth(output)
            },
            There(There(There(There(There(There(There(There(There(Here(output)))))))))) => {
                Either15::Tenth(output)
            },
            There(There(There(There(There(There(There(There(There(There(Here(output))))))))))) => {
                Either15::Eleventh(output)
            },
            There(There(There(There(There(There(There(There(There(There(There(Here(output)))))))))))) => {
                Either15::Twelfth(output)
            },
            There(There(There(There(There(There(There(There(There(There(There(There(Here(output))))))))))))) => {
                Either15::Thirteenth(output)
            },
            There(There(There(There(There(There(There(There(There(There(There(There(There(Here(output)))))))))))))) => {
                Either15::Fourteenth(output)
            },
            There(There(There(There(There(There(There(There(There(There(There(There(There(There(output)))))))))))))) => {
                Either15::Fifteenth(output)
            },
        }
    }
}

/// The output of a race between sixteen operations: the output of the one that
/// won, tagged with its position.
pub enum Either16<T0, T1, T2, T3, T4, T5, T6, T7, T8, T9, T10, T11, T12, T13, T14, T15> {
    /// The first operand won.
    First(T0),
    /// The second operand won.
    Second(T1),
    /// The third operand won.
    Third(T2),
    /// The fourth operand won.
    Fourth(T3),
    /// The fifth operand won.
    Fifth(T4),
    /// The sixth operand won.
    Sixth(T5),
    /// The seventh operand won.
    Seventh(T6),
    /// The eighth operand won.
    Eighth(T7),
    /// The ninth operand won.
    Ninth(T8),
    /// The tenth operand won.
    Tenth(T9),
    /// The eleventh operand won.
    Eleventh(T10),
    /// The twelfth operand won.
    Twelfth(T11),
    /// The thirteenth operand won.
    Thirteenth(T12),
    /// The fourteenth operand won.
    Fourteenth(T13),
    /// The fifteenth operand won.
    Fifteenth(T14),
    /// The sixteenth operand won.
    Sixteenth(T15),
}

impl<
    T0, T1, T2, T3, T4, T5, T6, T7, T8, T9, T10, T11, T12, T13, T14, T15,
> Either16<
    T0, T1, T2, T3, T4, T5, T6, T7, T8, T9, T10, T11, T12, T13, T14, T15,
> {
    /// The position of the winner in declared order, counted from 0.
    pub open spec fn position(&self) -> int {
        match self {
            Either16::First(_) => 0,
            Either16::Second(_) => 1,
            Either16::Third(_) => 2,
            Either16::Fourth(_) => 3,
            Either16::Fifth(_) => 4,
            Either16::Sixth(_) => 5,
            Either16::Seventh(_) => 6,
            Either16::Eighth(_) => 7,
            Either16::Ninth(_) => 8,
            Either16::Tenth(_) => 9,
            Either16::Eleventh(_) => 10,
            Either16::Twelfth(_) => 11,
            Either16::Thirteenth(_) => 12,
            Either16::Fourteenth(_) => 13,
            Either16::Fifteenth(_) => 14,
            Either16::Sixteenth(_) => 15,
        }
    }

    /// What a list of sixteen operands has won, as a result of the race: the
    /// same output, tagged with the position in which the list has placed it.
    pub open spec fn tagged(won: Winner<T0, Winner<T1, Winner<T2, Winner<T3, Winner<T4,
        Winner<T5, Winner<T6, Winner<T7, Winner<T8, Winner<T9, Winner<T10, Winner<T11,
        Winner<T12, Winner<T13, Winner<T14, T15>>>>>>>>>>>>>>>) -> Self {
        match won {
            Here(output) => Either16::First(output),
            There(Here(output)) => Either16::Second(output),
            There(There(Here(output))) => Either16::Third(output),
            There(There(There(Here(output)))) => Either16::Fourth(output),
            There(There(There(There(Here(output))))) => Either16::Fifth(output),
            There(There(There(There(There(Here(output)))))) => Either16::Sixth(output),
            There(There(There(There(There(There(Here(output))))))) => Either16::Seventh(output),
            There(There(There(There(There(There(There(Here(output)))))))) => {
                Either16::Eighth(output)
            },
            There(There(There(There(There(There(There(There(Here(output))))))))) => {
                Either16::Ninth(output)
            },
            There(There(There(There(There(There(There(There(There(Here(output)))))))))) => {
                Either16::Tenth(output)
            },
            There(There(There(There(There(There(There(There(There(There(Here(output))))))))))) => {
                Either16::Eleventh(output)
            },
            There(There(There(There(There(There(There(There(There(There(There(Here(output)))))))))))) => {
                Either16::Twelfth(output)
            },
            There(There(There(There(There(There(There(There(There(There(There(There(Here(output))))))))))))) => {
                Either16::Thirteenth(output)
            },
            There(There(There(There(There(There(There(There(There(There(There(There(There(Here(output)))))))))))))) => {
                Either16::Fourteenth(output)
            },
            There(There(There(There(There(There(There(There(There(There(There(There(There(There(Here(output))))))))))))))) => {
                Either16::Fifteenth(output)
            },
            There(There(There(There(There(There(There(There(There(There(There(There(There(There(There(output))))))))))))))) => {
                Either16::Sixteenth(output)
            },
        }
    }

    /// Tags what a list of sixteen operands has won with the position in which
    /// the list has placed it.
    pub fn tag(won: Winner<T0, Winner<T1, Winner<T2, Winner<T3, Winner<T4, Winner<T5, Winner<T6,
        Winner<T7, Winner<T8, Winner<T9, Winner<T10, Winner<T11, Winner<T12, Winner<T13,
        Winner<T14, T15>>>>>>>>>>>>>>>) -> (output: Self)
        ensures
            output == Self::tagged(won),
    {
        match won {
            Here(output) => Either16::First(output),
            There(Here(output)) => Either16::Second(output),
            There(There(Here(output))) => Either16::Third(output),
            There(There(There(Here(output)))) => Either16::Fourth(output),
            There(There(There(There(Here(output))))) => Either16::Fifth(output),
            There(There(There(There(There(Here(output)))))) => Either16::Sixth(output),
            There(There(There(There(There(There(Here(output))))))) => Either16::Seventh(output),
            There(There(There(There(There(There(There(Here(output)))))))) => {
                Either16::Eighth(output)
            },
            There(There(There(There(There(There(There(There(Here(output))))))))) => {
                Either16::Ninth(output)
            },
            There(There(There(There(There(There(There(There(There(Here(output)))))))))) => {
                Either16::Tenth(output)
            },
            There(There(There(There(There(There(There(There(There(There(Here(output))))))))))) => {
                Either16::Eleventh(output)
            },
            There(There(There(There(There(There(There(There(There(There(There(Here(output)))))))))))) => {
                Either16::Twelfth(output)
            },
            There(There(There(There(There(There(There(There(There(There(There(There(Here(output))))))))))))) => {
                Either16::Thirteenth(output)
            },
            There(There(There(There(There(There(There(There(There(There(There(There(There(Here(output)))))))))))))) => {
                Either16::Fourteenth(output)
            },
            There(There(There(There(There(There(There(There(There(There(There(There(There(There(Here(output))))))))))))))) => {
                Either16::Fifteenth(output)
            },
            There(There(There(There(There(There(There(There(There(There(There(There(There(There(There(output))))))))))))))) => {
                Either16::Sixteenth(output)
            },
        }
    }
}

} // verus!
