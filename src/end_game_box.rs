use vstd::prelude::*;
use crate::backend::EndGameReason;

verus! {

/// The title shown when the game ended for `reason`.
pub open spec fn title_for(reason: EndGameReason) -> Seq<char> {
    match reason {
        EndGameReason::Victory => "VICTORY !"@,
        EndGameReason::NoRemainingHeads => "DEFEAT !"@,
        EndGameReason::HeadPoppedOutByRisingEdge => "DEFEAT !"@,
    }
}

/// The explanation shown when the game ended for `reason`.
pub open spec fn description_for(reason: EndGameReason) -> Seq<char> {
    match reason {
        EndGameReason::Victory => "One of your heads has reached the arrival line"@,
        EndGameReason::NoRemainingHeads => "Your have no more heads"@,
        EndGameReason::HeadPoppedOutByRisingEdge => "The rising edge has killed one of your heads"@,
    }
}

/// The box shown once the game is over: why it ended, as a title and an explanation.
pub struct EndGameBox {
    end_game_reason: Option<EndGameReason>,
    end_game_title: Option<String>,
    end_game_description: Option<String>,
}

impl EndGameBox {
    pub closed spec fn reason(&self) -> Option<EndGameReason> {
        self.end_game_reason
    }

    pub closed spec fn title(&self) -> Option<Seq<char>> {
        match self.end_game_title {
            Some(s) => Some(s@),
            None => None,
        }
    }

    pub closed spec fn description(&self) -> Option<Seq<char>> {
        match self.end_game_description {
            Some(s) => Some(s@),
            None => None,
        }
    }

    pub fn new() -> (r: EndGameBox)
        ensures
            r.reason() is None,
            r.title() is None,
            r.description() is None,
    {
        EndGameBox { end_game_reason: None, end_game_title: None, end_game_description: None }
    }

    pub fn update_end_game_reason(&mut self, end_game_reason: EndGameReason)
        ensures
            final(self).reason() == Some(end_game_reason),
            final(self).title() == Some(title_for(end_game_reason)),
            final(self).description() == Some(description_for(end_game_reason)),
    {
        self.end_game_reason = Some(end_game_reason);
        match end_game_reason {
            EndGameReason::Victory => {
                self.end_game_title = Some("VICTORY !".to_owned());
                self.end_game_description = Some(
                    "One of your heads has reached the arrival line".to_owned(),
                );
            },
            EndGameReason::NoRemainingHeads => {
                self.end_game_title = Some("DEFEAT !".to_owned());
                self.end_game_description = Some("Your have no more heads".to_owned());
            },
            EndGameReason::HeadPoppedOutByRisingEdge => {
                self.end_game_title = Some("DEFEAT !".to_owned());
                self.end_game_description = Some(
                    "The rising edge has killed one of your heads".to_owned(),
                );
            },
        }
    }

    pub fn get_end_game_reason(&self) -> (r: Option<EndGameReason>)
        ensures
            r == self.reason(),
    {
        self.end_game_reason
    }

    /// The title, empty before the game ended.
    pub fn get_title(&self) -> (r: &str)
        ensures
            self.title() is Some ==> r@ == self.title()->0,
            self.title() is None ==> r@ == ""@,
    {
        match &self.end_game_title {
            Some(s) => s.as_str(),
            None => "",
        }
    }

    /// The explanation, empty before the game ended.
    pub fn get_description(&self) -> (r: &str)
        ensures
            self.description() is Some ==> r@ == self.description()->0,
            self.description() is None ==> r@ == ""@,
    {
        match &self.end_game_description {
            Some(s) => s.as_str(),
            None => "",
        }
    }
}

} // verus!
