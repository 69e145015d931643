use vstd::prelude::*;
use vstd::string::StringExecFns;
use crate::crawl::CrawlError;
use crate::crawl_model::CrawlFault;
use crate::match_data::PlayerTeam;
use crate::match_data::ValidationError;
use crate::match_data::ValidationFault;
use crate::text::append_decimal;
use crate::text::append_signed_decimal;
use crate::text::decimal;
use crate::text::signed_decimal;

verus! {

impl PlayerTeam {
    /// The side's name in messages.
    pub open spec fn name(self) -> Seq<char> {
        match self {
            PlayerTeam::Blue => "blue"@,
            PlayerTeam::Red => "red"@,
        }
    }

    /// The side's name: `blue` or `red`.
    pub fn to_string(&self) -> (text: String)
        ensures
            text@ == self.name(),
    {
        let mut text = String::new();
        match self {
            PlayerTeam::Blue => text.append("blue"),
            PlayerTeam::Red => text.append("red"),
        }
        assert(text@ =~= self.name());
        text
    }
}

impl ValidationFault {
    /// The sentence that reports the fault.
    pub open spec fn message(self) -> Seq<char> {
        match self {
            ValidationFault::MonsterParticipant { match_id, summoner_name } => "participant "@
                + summoner_name + " in match "@ + match_id + " is not on blue or red team"@,
            ValidationFault::UnknownChampion { match_id, summoner_name } => "participant "@
                + summoner_name + " in match "@ + match_id + " has an unknown champion"@,
            ValidationFault::Not5Players { match_id, players, team } => "match "@ + match_id
                + " had "@ + decimal(players) + " players on "@ + team.name()
                + " team, should be 5"@,
            ValidationFault::NoWinner { match_id } => "match "@ + match_id
                + " had no winning team"@,
            ValidationFault::Not10Players { game_id, players } => "match "@ + signed_decimal(
                game_id as int,
            ) + " had "@ + decimal(players) + " participants total, should be 10"@,
        }
    }
}

impl ValidationError {
    /// The sentence that reports the error.
    pub fn to_string(&self) -> (text: String)
        ensures
            text@ == self@.message(),
    {
        let mut text = String::new();
        match self {
            ValidationError::MonsterParticipant { match_id, summoner_name } => {
                text.append("participant ");
                text.append(summoner_name.as_str());
                text.append(" in match ");
                text.append(match_id.as_str());
                text.append(" is not on blue or red team");
            },
            ValidationError::UnknownChampion { match_id, summoner_name } => {
                text.append("participant ");
                text.append(summoner_name.as_str());
                text.append(" in match ");
                text.append(match_id.as_str());
                text.append(" has an unknown champion");
            },
            ValidationError::Not5Players { match_id, players, team } => {
                text.append("match ");
                text.append(match_id.as_str());
                text.append(" had ");
                append_decimal(&mut text, *players as u64);
                text.append(" players on ");
                let side = team.to_string();
                text.append(side.as_str());
                text.append(" team, should be 5");
            },
            ValidationError::NoWinner { match_id } => {
                text.append("match ");
                text.append(match_id.as_str());
                text.append(" had no winning team");
            },
            ValidationError::Not10Players { game_id, players } => {
                text.append("match ");
                append_signed_decimal(&mut text, *game_id);
                text.append(" had ");
                append_decimal(&mut text, *players as u64);
                text.append(" participants total, should be 10");
            },
        }
        assert(text@ =~= self@.message());
        text
    }
}

impl CrawlFault {
    /// The sentence that reports why the crawl stopped.
    pub open spec fn message(self) -> Seq<char> {
        match self {
            CrawlFault::UnknownSeed { summoner_name } => "summoner "@ + summoner_name
                + " does not exist on the platform"@,
            CrawlFault::NoSummoner => "no_summoner"@,
            CrawlFault::NonExistentMatch { match_id } => "match "@ + match_id
                + " is in DB but does not exist in Riot DB"@,
            CrawlFault::InvalidMatch { fault } => fault.message(),
            CrawlFault::Transport => "the store or the match service failed"@,
            CrawlFault::UnexpectedEvent => "an answer arrived that was not waited for"@,
            CrawlFault::TimeOutOfRange => "the time window does not fit a timestamp"@,
        }
    }
}

impl CrawlError {
    /// The sentence that reports why the crawl stopped.
    pub fn to_string(&self) -> (text: String)
        ensures
            text@ == self@.message(),
    {
        let mut text = String::new();
        match self {
            CrawlError::UnknownSeed { summoner_name } => {
                text.append("summoner ");
                text.append(summoner_name.as_str());
                text.append(" does not exist on the platform");
            },
            CrawlError::NoSummoner => {
                text.append("no_summoner");
            },
            CrawlError::NonExistentMatch { match_id } => {
                text.append("match ");
                text.append(match_id.as_str());
                text.append(" is in DB but does not exist in Riot DB");
            },
            CrawlError::InvalidMatch { error } => {
                let inner = error.to_string();
                text.append(inner.as_str());
            },
            CrawlError::Transport => {
                text.append("the store or the match service failed");
            },
            CrawlError::UnexpectedEvent => {
                text.append("an answer arrived that was not waited for");
            },
            CrawlError::TimeOutOfRange => {
                text.append("the time window does not fit a timestamp");
            },
        }
        assert(text@ =~= self@.message());
        text
    }
}

} // verus!
