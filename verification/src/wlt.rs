//! The translation service: what a request to it holds, and what is made of
//! the outcome of sending one.

use vstd::prelude::*;
use vstd::string::*;
use crate::utils::CurlErr;

verus! {

/// A request to translate a batch of texts from one language to another.
#[derive(Debug)]
pub struct WLTTranslationRequest<'a> {
    /// Where to post the request. Not part of its body.
    pub endpoint: String,
    /// The credential to post it with. Not part of its body.
    pub api_key: &'a str,
    pub model_id: String,
    pub text: &'a [&'a str],
}

#[derive(Debug)]
pub struct Translation {
    pub translation: String,
}

#[derive(Debug)]
pub struct WLTTranslationResponse {
    pub word_count: u32,
    pub character_count: u32,
    pub translations: Vec<Translation>,
}

/// The ways in which a translation can fail.
#[derive(Debug, Clone, Copy, PartialEq, Eq, Structural)]
pub enum WLTErr {
    /// The request could not be put together.
    BuildRequestErr,
    /// The request could not be delivered.
    SendRequestErr,
    /// The answer could not be read.
    DecodeResultErr,
    /// The service answered, with no translation at all.
    NoTranslationErr,
}

/// The model that translates from `source` to `target` when none is
/// configured for the pair: the two codes with a hyphen between them.
pub open spec fn default_model(source: Seq<char>, target: Seq<char>) -> Seq<char> {
    source + "-"@ + target
}

/// The name under which a model for the pair may be configured: the two
/// codes with an underscore between them.
pub open spec fn model_key(source: Seq<char>, target: Seq<char>) -> Seq<char> {
    source + "_"@ + target
}

/// The address of the translation call of the service at `endpoint`, in the
/// given version of its interface.
pub open spec fn translate_url(endpoint: Seq<char>, version: Seq<char>) -> Seq<char> {
    endpoint + "/v3/translate?version="@ + version
}

/// The translation failure that a transport failure amounts to.
pub open spec fn transport_failure(e: CurlErr) -> WLTErr {
    match e {
        CurlErr::InvalidUrl => WLTErr::BuildRequestErr,
        CurlErr::InvalidInputData => WLTErr::BuildRequestErr,
        CurlErr::UnexpectedOutputData => WLTErr::DecodeResultErr,
        CurlErr::RequestFail => WLTErr::SendRequestErr,
        CurlErr::IncompatibleResultData => WLTErr::DecodeResultErr,
    }
}

/// What a translation call amounts to, given how the transport fared: a
/// transport failure becomes the corresponding translation failure, an
/// answer without any translation is a failure of its own, and any other
/// answer is the result.
pub open spec fn received(outcome: Result<WLTTranslationResponse, CurlErr>) -> Result<
    WLTTranslationResponse,
    WLTErr,
> {
    match outcome {
        Ok(response) => if response.translations@.len() > 0 {
            Ok(response)
        } else {
            Err(WLTErr::NoTranslationErr)
        },
        Err(e) => Err(transport_failure(e)),
    }
}

impl WLTErr {
    /// The translation failure that the transport failure `e` amounts to.
    pub fn from_transport(e: CurlErr) -> (r: WLTErr)
        ensures
            r == transport_failure(e),
    {
        match e {
            CurlErr::InvalidUrl => WLTErr::BuildRequestErr,
            CurlErr::InvalidInputData => WLTErr::BuildRequestErr,
            CurlErr::UnexpectedOutputData => WLTErr::DecodeResultErr,
            CurlErr::RequestFail => WLTErr::SendRequestErr,
            CurlErr::IncompatibleResultData => WLTErr::DecodeResultErr,
        }
    }
}

impl WLTTranslationResponse {
    /// The translated texts, in the order of the service's answer.
    pub open spec fn texts(self) -> Seq<Seq<char>> {
        Seq::new(self.translations@.len(), |i: int| self.translations@[i].translation@)
    }

    /// Gives up the answer for its translated texts, in order.
    pub fn into_texts(self) -> (texts: Vec<String>)
        ensures
            texts@.len() == self.translations@.len(),
            forall|i: int| 0 <= i < texts@.len() ==> texts@[i] == self.translations@[i].translation,
    {
        let mut translations = self.translations;
        let mut texts: Vec<String> = Vec::with_capacity(translations.len());
        let mut i: usize = 0;
        while i < translations.len()
            invariant
                i <= translations@.len(),
                translations@.len() == self.translations@.len(),
                texts@.len() == i,
                forall|k: int| 0 <= k < i ==> texts@[k] == self.translations@[k].translation,
                forall|k: int|
                    i <= k < translations@.len() ==> translations@[k] == self.translations@[k],
            decreases translations@.len() - i,
        {
            let mut text = String::new();
            std::mem::swap(&mut translations[i].translation, &mut text);
            texts.push(text);
            i += 1;
        }
        texts
    }
}

impl<'a> WLTTranslationRequest<'a> {
    /// The name under which a model for the pair of `source` and `target`
    /// may be configured.
    pub fn override_key(source: &str, target: &str) -> (key: String)
        ensures
            key@ == model_key(source@, target@),
    {
        let mut key = String::from_str(source);
        key.append("_");
        key.append(target);
        key
    }

    /// A request to the service at `endpoint` to translate `text` from
    /// `source` to `target`.
    ///
    /// The model is `model_override` where one is given, that is, where one
    /// is configured under [`WLTTranslationRequest::override_key`]; else it
    /// is the default model of the pair.
    pub fn new(
        endpoint: &'a str,
        api_key: &'a str,
        text: &'a [&'a str],
        source: &'a str,
        target: &'a str,
        version: &'a str,
        model_override: Option<String>,
    ) -> (request: WLTTranslationRequest<'a>)
        ensures
            request.endpoint@ == translate_url(endpoint@, version@),
            request.api_key == api_key,
            request.text == text,
            request.model_id@ == match model_override {
                Some(model) => model@,
                None => default_model(source@, target@),
            },
    {
        let model_id = match model_override {
            Some(model) => model,
            None => {
                let mut model = String::from_str(source);
                model.append("-");
                model.append(target);
                model
            },
        };
        let mut url = String::from_str(endpoint);
        url.append("/v3/translate?version=");
        url.append(version);
        WLTTranslationRequest { endpoint: url, api_key, model_id, text }
    }

    /// What sending a request amounts to, given what the transport made of
    /// posting it.
    pub fn receive(outcome: Result<WLTTranslationResponse, CurlErr>) -> (r: Result<
        WLTTranslationResponse,
        WLTErr,
    >)
        ensures
            r == received(outcome),
    {
        match outcome {
            Ok(response) => {
                if response.translations.len() > 0 {
                    Ok(response)
                } else {
                    Err(WLTErr::NoTranslationErr)
                }
            },
            Err(e) => Err(WLTErr::from_transport(e)),
        }
    }
}

} // verus!
