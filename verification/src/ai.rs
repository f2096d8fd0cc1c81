//! The transcription service: which model is asked, and where.

use vstd::prelude::*;
use vstd::string::StringExecFns;

verus! {

/// The models the service runs.
#[derive(Clone, Copy, Debug, PartialEq, Eq, Structural)]
pub enum AIModelType {
    OpenaiWhisper,
}

/// The sizes a model comes in.
#[derive(Clone, Copy, Debug, PartialEq, Eq, Structural)]
pub enum AIModelScale {
    Tiny,
    Base,
    Large,
}

/// Which model is asked for a transcription, and at which size.
#[derive(Clone, Copy, Debug, PartialEq, Eq, Structural)]
pub struct AiTranslator {
    pub model_type: AIModelType,
    pub scale: AIModelScale,
}

/// The name of a size, as the service spells it.
pub open spec fn scale_text(scale: AIModelScale) -> Seq<char> {
    match scale {
        AIModelScale::Tiny => seq!['t', 'i', 'n', 'y'],
        AIModelScale::Base => seq!['b', 'a', 's', 'e'],
        AIModelScale::Large => seq!['l', 'a', 'r', 'g', 'e'],
    }
}

/// The path under which the service offers a model.
pub open spec fn model_url_text(model: AIModelType) -> Seq<char> {
    match model {
        AIModelType::OpenaiWhisper => seq![
            '/',
            'm',
            'o',
            'd',
            'e',
            'l',
            '/',
            'w',
            'h',
            'i',
            's',
            'p',
            'e',
            'r',
        ],
    }
}

impl Default for AiTranslator {
    fn default() -> (r: Self)
        ensures
            r.model_type == AIModelType::OpenaiWhisper,
            r.scale == AIModelScale::Base,
    {
        Self { model_type: AIModelType::OpenaiWhisper, scale: AIModelScale::Base }
    }
}

impl AiTranslator {
    /// The same translator, asking `model`.
    pub fn model(self, model: AIModelType) -> (r: Self)
        ensures
            r.model_type == model,
            r.scale == self.scale,
    {
        let mut translator = self;
        translator.model_type = model;
        translator
    }

    /// The same translator, asking for the size `scale`.
    pub fn scale(self, scale: AIModelScale) -> (r: Self)
        ensures
            r.scale == scale,
            r.model_type == self.model_type,
    {
        let mut translator = self;
        translator.scale = scale;
        translator
    }

    /// The name of the size asked for.
    pub fn get_scale_str(&self) -> (r: &str)
        ensures
            r@ == scale_text(self.scale),
    {
        proof {
            reveal_strlit("tiny");
            reveal_strlit("base");
            reveal_strlit("large");
        }
        let r = match self.scale {
            AIModelScale::Tiny => "tiny",
            AIModelScale::Base => "base",
            AIModelScale::Large => "large",
        };
        assert(r@ =~= scale_text(self.scale));
        r
    }

    /// The path under which the service offers the model asked.
    pub fn get_url(&self) -> (r: &str)
        ensures
            r@ == model_url_text(self.model_type),
    {
        proof {
            reveal_strlit("/model/whisper");
        }
        let r = match self.model_type {
            AIModelType::OpenaiWhisper => "/model/whisper",
        };
        assert(r@ =~= model_url_text(self.model_type));
        r
    }

    /// The path that a request for a transcription goes to: the path of
    /// the model, a slash, and the name of the size.
    pub fn request_url(&self) -> (r: String)
        ensures
            r@ == model_url_text(self.model_type) + seq!['/'] + scale_text(self.scale),
    {
        let mut url = String::from_str(self.get_url());
        url.append("/");
        url.append(self.get_scale_str());
        proof {
            reveal_strlit("/");
            assert(url@ =~= model_url_text(self.model_type) + seq!['/'] + scale_text(self.scale));
        }
        url
    }
}

} // verus!
