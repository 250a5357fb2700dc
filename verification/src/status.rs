//! Status of the services the application leans on, and the messages shown
//! for them.
//!
//! Probing the services (a local model server, a transcription tool, the
//! stock-footage API key) touches the network and the process table, so the
//! probes run in the embedding; their results are handed in as plain
//! values.  What is decided and shown for each combination is verified
//! here.

use vstd::prelude::*;
use vstd::string::StringExecFns;

verus! {

/// Status of the local language-model server.
#[derive(Clone, Debug)]
pub enum OllamaStatus {
    /// Running with a usable model (its name).
    Ready(String),
    /// Not reachable.
    NotRunning,
    /// Running, but no usable model is installed.
    NoModel,
}

/// Status of the transcription tool.
#[derive(Clone, Debug)]
pub enum WhisperStatus {
    /// Installed (which flavour).
    Available(String),
    /// Not installed.
    NotInstalled,
}

/// Status of the stock-footage API key.
#[derive(Clone, Copy, Debug, PartialEq, Eq, Structural)]
pub enum PexelsStatus {
    Configured,
    NotConfigured,
}

/// Status of all services together.
#[derive(Clone, Debug)]
pub struct ServiceStatus {
    pub ollama: OllamaStatus,
    pub whisper: WhisperStatus,
    pub pexels: PexelsStatus,
}

/// The lines shown for the model server's status.
pub open spec fn spec_ollama_block(o: OllamaStatus) -> Seq<char> {
    match o {
        OllamaStatus::Ready(model) => "✅ **Ollama**: Ready ("@ + model@ + ")"@,
        OllamaStatus::NotRunning => "❌ **Ollama**: Not running\n   → Run `ollama serve` in a terminal"@,
        OllamaStatus::NoModel => "⚠️ **Ollama**: Running but no model\n   → Run `ollama pull qwen2.5:3b`"@,
    }
}

/// The lines shown for the transcription tool's status.
pub open spec fn spec_whisper_block(w: WhisperStatus) -> Seq<char> {
    match w {
        WhisperStatus::Available(which) => "✅ **Whisper**: Available ("@ + which@ + ")"@,
        WhisperStatus::NotInstalled => "⚠️ **Whisper**: Not installed (optional)\n   → `pip install openai-whisper` for audio transcription"@,
    }
}

/// The lines shown for the stock-footage key's status.
pub open spec fn spec_pexels_block(p: PexelsStatus) -> Seq<char> {
    match p {
        PexelsStatus::Configured => "✅ **Pexels API**: Configured"@,
        PexelsStatus::NotConfigured => "⚠️ **Pexels API**: Not configured (optional)\n   → Say: \"set pexels key YOUR_API_KEY\"\n   → Get free key at: pexels.com/api"@,
    }
}

/// The closing line: ready to edit once the model server is usable.
pub open spec fn spec_ready_block(o: OllamaStatus) -> Seq<char> {
    if o is Ready {
        "🎬 **Ready to edit!** Drag & drop videos or type a command."@
    } else {
        "⏳ **Setup needed**: Please start Ollama to use AI features."@
    }
}

/// The whole greeting: a welcome header, one block per service, a blank
/// line, and the closing line.
pub open spec fn spec_greeting(s: ServiceStatus) -> Seq<char> {
    "👋 **Welcome to Montage!**\n\nI'm your AI video editing assistant. Here's the current status:\n\n"@
        + spec_ollama_block(s.ollama) + "\n"@ + spec_whisper_block(s.whisper) + "\n"@
        + spec_pexels_block(s.pexels) + "\n\n"@ + spec_ready_block(s.ollama)
}

impl ServiceStatus {
    /// Assemble the status of all services: the model-server and
    /// transcription probes run in the embedding and are handed in; the
    /// stock-footage key counts as configured exactly when it is present
    /// and non-empty.
    pub fn check(pexels_key: &Option<String>, ollama: OllamaStatus, whisper: WhisperStatus) -> (r:
        Self)
        ensures
            r.ollama == ollama,
            r.whisper == whisper,
            r.pexels == (if pexels_key matches Some(k) && k@.len() > 0 {
                PexelsStatus::Configured
            } else {
                PexelsStatus::NotConfigured
            }),
    {
        let configured = match pexels_key {
            Some(k) => !k.as_str().is_empty(),
            None => false,
        };
        ServiceStatus {
            ollama,
            whisper,
            pexels: if configured {
                PexelsStatus::Configured
            } else {
                PexelsStatus::NotConfigured
            },
        }
    }

    /// The greeting message shown on startup, reflecting each service's
    /// status.
    pub fn greeting_message(&self) -> (r: String)
        ensures
            r@ == spec_greeting(*self),
    {
        let mut r = String::new();
        r.append(
            "👋 **Welcome to Montage!**\n\nI'm your AI video editing assistant. Here's the current status:\n\n",
        );
        match &self.ollama {
            OllamaStatus::Ready(model) => {
                r.append("✅ **Ollama**: Ready (");
                r.append(model.as_str());
                r.append(")");
            },
            OllamaStatus::NotRunning => {
                r.append("❌ **Ollama**: Not running\n   → Run `ollama serve` in a terminal");
            },
            OllamaStatus::NoModel => {
                r.append("⚠️ **Ollama**: Running but no model\n   → Run `ollama pull qwen2.5:3b`");
            },
        }
        r.append("\n");
        match &self.whisper {
            WhisperStatus::Available(which) => {
                r.append("✅ **Whisper**: Available (");
                r.append(which.as_str());
                r.append(")");
            },
            WhisperStatus::NotInstalled => {
                r.append(
                    "⚠️ **Whisper**: Not installed (optional)\n   → `pip install openai-whisper` for audio transcription",
                );
            },
        }
        r.append("\n");
        match &self.pexels {
            PexelsStatus::Configured => {
                r.append("✅ **Pexels API**: Configured");
            },
            PexelsStatus::NotConfigured => {
                r.append(
                    "⚠️ **Pexels API**: Not configured (optional)\n   → Say: \"set pexels key YOUR_API_KEY\"\n   → Get free key at: pexels.com/api",
                );
            },
        }
        r.append("\n\n");
        match &self.ollama {
            OllamaStatus::Ready(_) => {
                r.append("🎬 **Ready to edit!** Drag & drop videos or type a command.");
            },
            _ => {
                r.append("⏳ **Setup needed**: Please start Ollama to use AI features.");
            },
        }
        proof {
            assert(r@ =~= spec_greeting(*self));
        }
        r
    }

    /// Quick indicators for the interface: each service's name and whether
    /// it is usable.
    pub fn status_indicators(&self) -> (r: Vec<(String, bool)>)
        ensures
            r@.len() == 3,
            r@[0].0@ == "Ollama"@ && r@[0].1 == (self.ollama is Ready),
            r@[1].0@ == "Whisper"@ && r@[1].1 == (self.whisper is Available),
            r@[2].0@ == "Pexels"@ && r@[2].1 == (self.pexels is Configured),
    {
        let ollama_ready = match &self.ollama {
            OllamaStatus::Ready(_) => true,
            _ => false,
        };
        let whisper_ready = match &self.whisper {
            WhisperStatus::Available(_) => true,
            _ => false,
        };
        let pexels_ready = match &self.pexels {
            PexelsStatus::Configured => true,
            PexelsStatus::NotConfigured => false,
        };
        let mut r: Vec<(String, bool)> = Vec::new();
        r.push(("Ollama".to_owned(), ollama_ready));
        r.push(("Whisper".to_owned(), whisper_ready));
        r.push(("Pexels".to_owned(), pexels_ready));
        r
    }
}

} // verus!
