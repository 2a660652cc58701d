//! Detecting AI-generated music by asking several providers in turn.
use vstd::prelude::*;

use crate::text::{html_link, html_link_spec};

pub mod shlabs;
pub mod soul_over_ai;
pub mod spot_the_ai;
pub mod spotify_ai_blocker;

verus! {

/// The providers that can tell AI-generated music apart.
#[derive(PartialEq, Eq, Structural, Clone, Copy, Debug)]
pub enum Provider {
    SpotifyAIBlocker,
    SoulOverAI,
    SHLabs,
}

/// What a provider predicts about a track.
#[derive(PartialEq, Eq, Structural, Clone, Copy, Debug, PartialOrd, Ord)]
pub enum AISlopDetectionPrediction {
    HumanMade,
    PureAI,
    ProcessedAI,
}

impl Default for AISlopDetectionPrediction {
    fn default() -> (p: Self)
        ensures
            p == AISlopDetectionPrediction::HumanMade,
    {
        AISlopDetectionPrediction::HumanMade
    }
}

impl AISlopDetectionPrediction {
    /// Any prediction but "human made" marks the track as AI.
    pub fn is_track_ai(self) -> (res: bool)
        ensures
            res == (self != AISlopDetectionPrediction::HumanMade),
    {
        !matches!(self, AISlopDetectionPrediction::HumanMade)
    }
}

/// Which provider, if any, called the track AI, and its prediction.
#[derive(PartialEq, Eq, Structural, Clone, Copy, Debug)]
pub struct AISlopDetectionResult {
    pub provider: Option<Provider>,
    pub prediction: AISlopDetectionPrediction,
}

pub open spec fn provider_link(p: Provider) -> Seq<char> {
    match p {
        Provider::SpotifyAIBlocker => "https://github.com/CennoxX/spotify-ai-blocker"@,
        Provider::SoulOverAI => "https://github.com/xoundbyte/soul-over-ai"@,
        Provider::SHLabs => "https://www.submithub.com/ai-song-checker"@,
    }
}

pub open spec fn provider_name(p: Provider) -> Seq<char> {
    match p {
        Provider::SpotifyAIBlocker => "Spotify AI Music Blocker"@,
        Provider::SoulOverAI => "Soul Over AI"@,
        Provider::SHLabs => "SubmitHub AI Song Checker"@,
    }
}

impl Provider {
    /// The provider's home page.
    pub fn link(&self) -> (res: &'static str)
        ensures
            res@ == provider_link(*self),
    {
        match self {
            Self::SpotifyAIBlocker => "https://github.com/CennoxX/spotify-ai-blocker",
            Self::SoulOverAI => "https://github.com/xoundbyte/soul-over-ai",
            Self::SHLabs => "https://www.submithub.com/ai-song-checker",
        }
    }

    /// The provider's display name.
    pub fn name(&self) -> (res: &'static str)
        ensures
            res@ == provider_name(*self),
    {
        match self {
            Self::SpotifyAIBlocker => "Spotify AI Music Blocker",
            Self::SoulOverAI => "Soul Over AI",
            Self::SHLabs => "SubmitHub AI Song Checker",
        }
    }

    /// An HTML link to the provider, named after it.
    pub fn tg_link(&self) -> (res: String)
        ensures
            res@ == html_link_spec(provider_link(*self), provider_name(*self)),
    {
        html_link(self.link(), self.name())
    }
}

/// The order in which providers are asked; SubmitHub only when it is configured.
pub open spec fn provider_order(shlabs_configured: bool) -> Seq<Provider> {
    if shlabs_configured {
        seq![Provider::SoulOverAI, Provider::SpotifyAIBlocker, Provider::SHLabs]
    } else {
        seq![Provider::SoulOverAI, Provider::SpotifyAIBlocker]
    }
}

/// Verdict over the answers `answers[i]` of the providers asked in turn (`None` where a
/// provider failed): the first provider that calls the track AI decides; if none does,
/// the track is human made.
pub open spec fn verdict_spec(answers: Seq<(Provider, Option<AISlopDetectionPrediction>)>) -> AISlopDetectionResult
    decreases answers.len(),
{
    if answers.len() == 0 {
        AISlopDetectionResult { provider: None, prediction: AISlopDetectionPrediction::HumanMade }
    } else {
        match answers[0].1 {
            Some(p) if p != AISlopDetectionPrediction::HumanMade => AISlopDetectionResult {
                provider: Some(answers[0].0),
                prediction: p,
            },
            _ => verdict_spec(answers.drop_first()),
        }
    }
}

/// The answer calls the track AI.
pub open spec fn is_flagged(answer: (Provider, Option<AISlopDetectionPrediction>)) -> bool {
    match answer.1 {
        Some(p) => p != AISlopDetectionPrediction::HumanMade,
        None => false,
    }
}

/// Asks AI-detection providers in a fixed order.
pub struct AISlopDetectionService {}

impl AISlopDetectionService {
    /// The providers to ask, in order.
    pub fn providers(shlabs_configured: bool) -> (res: Vec<Provider>)
        ensures
            res@ == provider_order(shlabs_configured),
    {
        let mut res = Vec::new();
        res.push(Provider::SoulOverAI);
        res.push(Provider::SpotifyAIBlocker);
        if shlabs_configured {
            res.push(Provider::SHLabs);
        }
        assert(res@ =~= provider_order(shlabs_configured));
        res
    }

    /// The verdict over the providers' answers, given in the order they were asked.
    pub fn is_track_ai(answers: &Vec<(Provider, Option<AISlopDetectionPrediction>)>) -> (res:
        AISlopDetectionResult)
        ensures
            res == verdict_spec(answers@),
    {
        let mut i: usize = 0;
        assert(answers@.subrange(0, answers@.len() as int) =~= answers@);
        while i < answers.len()
            invariant
                i <= answers@.len(),
                verdict_spec(answers@) == verdict_spec(answers@.subrange(i as int, answers@.len() as int)),
            decreases answers@.len() - i,
        {
            let (provider, answer) = answers[i];
            assert(answers@.subrange(i as int, answers@.len() as int).drop_first() =~= answers@.subrange(
                i + 1,
                answers@.len() as int,
            ));
            if let Some(p) = answer {
                if p.is_track_ai() {
                    return AISlopDetectionResult { provider: Some(provider), prediction: p };
                }
            }
            i += 1;
        }
        assert(answers@.subrange(i as int, answers@.len() as int) =~= Seq::<(Provider, Option<AISlopDetectionPrediction>)>::empty());
        AISlopDetectionResult { provider: None, prediction: AISlopDetectionPrediction::HumanMade }
    }
}

/// The verdict names a provider exactly when some provider called the track AI; then the
/// prediction is an AI one and it came from that provider.
pub proof fn lemma_verdict_provider_iff_flagged(answers: Seq<(Provider, Option<AISlopDetectionPrediction>)>)
    ensures
        verdict_spec(answers).provider is Some <==> exists|i: int|
            0 <= i < answers.len() && is_flagged(#[trigger] answers[i]),
        verdict_spec(answers).provider is None ==> verdict_spec(answers).prediction
            == AISlopDetectionPrediction::HumanMade,
        verdict_spec(answers).provider matches Some(pr) ==> verdict_spec(answers).prediction
            != AISlopDetectionPrediction::HumanMade && exists|i: int|
            0 <= i < answers.len() && #[trigger] answers[i] == (pr, Some(
                verdict_spec(answers).prediction,
            )),
    decreases answers.len(),
{
    if answers.len() > 0 {
        lemma_verdict_provider_iff_flagged(answers.drop_first());
        let rest = answers.drop_first();
        if verdict_spec(rest).provider is Some {
            let j = choose|j: int|
                0 <= j < rest.len() && is_flagged(#[trigger] rest[j]);
            assert(answers[j + 1] == rest[j]);
        }
        if let Some(pr) = verdict_spec(rest).provider {
            let j = choose|j: int|
                0 <= j < rest.len() && #[trigger] rest[j] == (pr, Some(
                    verdict_spec(rest).prediction,
                ));
            assert(answers[j + 1] == rest[j]);
        }
        assert forall|i: int|
            0 < i < answers.len() && is_flagged(#[trigger] answers[i]) implies verdict_spec(rest).provider is Some by {
            assert(rest[i - 1] == answers[i]);
        }
    }
}

/// The providers are asked in order and the first one that calls the track AI decides:
/// when answer `i` calls the track AI and no answer before it does, the verdict is that
/// provider with its prediction.
pub proof fn lemma_first_flagging_answer_decides(
    answers: Seq<(Provider, Option<AISlopDetectionPrediction>)>,
    i: int,
)
    requires
        0 <= i < answers.len(),
        answers[i].1 is Some,
        answers[i].1->0 != AISlopDetectionPrediction::HumanMade,
        forall|j: int|
            0 <= j < i ==> (#[trigger] answers[j]).1 is None || answers[j].1->0
                == AISlopDetectionPrediction::HumanMade,
    ensures
        verdict_spec(answers) == (AISlopDetectionResult {
            provider: Some(answers[i].0),
            prediction: answers[i].1->0,
        }),
    decreases i,
{
    if i > 0 {
        let rest = answers.drop_first();
        assert forall|j: int| 0 <= j < i - 1 implies (#[trigger] rest[j]).1 is None || rest[j].1->0
            == AISlopDetectionPrediction::HumanMade by {
            assert(rest[j] == answers[j + 1]);
        }
        assert(rest[i - 1] == answers[i]);
        lemma_first_flagging_answer_decides(rest, i - 1);
        assert(answers[0].1 is None || answers[0].1->0 == AISlopDetectionPrediction::HumanMade);
    }
}

/// When no answer calls the track AI, no provider is named and the track counts as made by
/// humans.
pub proof fn lemma_no_flagging_answer(answers: Seq<(Provider, Option<AISlopDetectionPrediction>)>)
    requires
        forall|j: int|
            0 <= j < answers.len() ==> (#[trigger] answers[j]).1 is None || answers[j].1->0
                == AISlopDetectionPrediction::HumanMade,
    ensures
        verdict_spec(answers) == (AISlopDetectionResult {
            provider: None,
            prediction: AISlopDetectionPrediction::HumanMade,
        }),
    decreases answers.len(),
{
    if answers.len() > 0 {
        let rest = answers.drop_first();
        assert forall|j: int| 0 <= j < rest.len() implies (#[trigger] rest[j]).1 is None || rest[j].1->0
            == AISlopDetectionPrediction::HumanMade by {
            assert(rest[j] == answers[j + 1]);
        }
        lemma_no_flagging_answer(rest);
        assert(answers[0].1 is None || answers[0].1->0 == AISlopDetectionPrediction::HumanMade);
    }
}

} // verus!
