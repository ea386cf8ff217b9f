//! Client settings and the shapes of the backend's replies.
use vstd::prelude::*;
use vstd::string::StringExecFns;

verus! {

/// Where the backends live and how the client behaves.
pub struct Settings {
    pub backend_url: String,
    pub local_llm_url: String,
    pub theme: String,
    pub auto_summarize: bool,
    pub language: String,
}

impl Settings {
    pub open spec fn is_default(&self) -> bool {
        &&& self.backend_url@ == "http://localhost:8000"@
        &&& self.local_llm_url@ == "http://localhost:1234"@
        &&& self.theme@ == "system"@
        &&& self.auto_summarize
        &&& self.language@ == "en"@
    }
}

impl Default for Settings {
    fn default() -> (r: Settings)
        ensures
            r.is_default(),
    {
        Settings {
            backend_url: String::from_str("http://localhost:8000"),
            local_llm_url: String::from_str("http://localhost:1234"),
            theme: String::from_str("system"),
            auto_summarize: true,
            language: String::from_str("en"),
        }
    }
}

/// The settings in force; nothing is persisted, so these are the defaults.
pub fn get_settings() -> (r: Settings)
    ensures
        r.is_default(),
{
    Settings::default()
}

/// Accepts new settings and hands them back unchanged.
pub fn save_settings(settings: Settings) -> (r: Result<Settings, String>)
    ensures
        r == Ok::<Settings, String>(settings),
{
    Ok(settings)
}

/// A summary of a page from the backend.
pub struct SummaryResponse {
    pub summary: String,
    pub key_points: Vec<String>,
    pub sentiment: Option<String>,
    pub topics: Option<Vec<String>>,
}

/// One message of a chat about a page.
pub struct ChatMessage {
    pub id: String,
    pub role: String,
    pub content: String,
    pub timestamp: String,
}

/// The backend's health report.
pub struct HealthStatus {
    pub status: String,
    pub version: String,
    pub llm_status: String,
}

} // verus!
