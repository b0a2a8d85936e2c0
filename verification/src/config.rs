//! The run's configuration: the account, the race settings, the text of a
//! fresh configuration file, and the one validation rule applied after
//! parsing. Reading and writing the file, and decoding its TOML, happen
//! outside this crate; the parsed plain values are handed in.

use vstd::prelude::*;
use vstd::string::StringExecFns;

verus! {

/// The whole configuration file.
pub struct Config {
    pub account: Account,
    pub config: Others,
}

/// The account section: credentials and security answers.
pub struct Account {
    pub email: String,
    pub password: String,
    pub sq1: String,
    pub sq2: String,
    pub sq3: String,
}

/// The settings section.
pub struct Others {
    pub offset: i64,
    pub auto_offset: bool,
    pub spread: usize,
    pub microsoft_auth: bool,
    pub gc_snipe: bool,
    pub change_skin: bool,
    pub skin_model: String,
    pub skin_filename: String,
    pub name_queue: Vec<String>,
}

/// Why a parsed configuration was rejected.
#[derive(Clone, Copy, PartialEq, Eq, Structural, Debug)]
pub enum ConfigError {
    /// The skin model is neither `slim` nor `classic` in any casing.
    InvalidSkinVariant,
}

impl ConfigError {
    /// The rejection, in words.
    pub fn message(&self) -> (r: &'static str)
        ensures
            r@ == "Invalid skin variant"@,
    {
        "Invalid skin variant"
    }
}

/// The lowercased form of the given characters. Named here; `lowercase`
/// below produces it.
pub uninterp spec fn lower_of(s: Seq<char>) -> Seq<char>;

/// Relies on str::to_lowercase: the result depends on the characters alone.
#[verifier::external_body]
fn lowercase(s: &str) -> (r: String)
    ensures
        r@ == lower_of(s@),
{
    s.to_lowercase()
}

/// Whether a skin model name is one the profile service takes: `slim` or
/// `classic`, compared without regard to case.
pub fn skin_model_valid(model: &str) -> (r: bool)
    ensures
        r == (lower_of(model@) == "slim"@ || lower_of(model@) == "classic"@),
{
    let lower = lowercase(model);
    let slim = String::from_str("slim");
    let classic = String::from_str("classic");
    lower == slim || lower == classic
}

/// The one rule a parsed configuration must meet: its skin model must be a
/// name the profile service takes.
pub fn validate_config(c: &Config) -> (r: Result<(), ConfigError>)
    ensures
        r is Ok <==> (lower_of(c.config.skin_model@) == "slim"@ || lower_of(c.config.skin_model@)
            == "classic"@),
        r is Err ==> r == Result::<(), ConfigError>::Err(ConfigError::InvalidSkinVariant),
{
    if skin_model_valid(c.config.skin_model.as_str()) {
        Ok(())
    } else {
        Err(ConfigError::InvalidSkinVariant)
    }
}

/// The text written to a fresh configuration file.
pub open spec fn default_config_text() -> Seq<char> {
    "[account]\nemail = \"test@example.com\"\npassword = \"test\"\n# Leave the rest empty if you do not have security questions\nsq1 = \"Foo\"\nsq2 = \"Bar\"\nsq3 = \"Baz\"\n\n[config]\noffset = 0\nauto_offset = false\n# Spread (if you are unsure, leave this as it is)\nspread = 0\nmicrosoft_auth = false\ngc_snipe = false\nchange_skin = false\nskin_model = \"slim\"\nskin_filename = \"example.png\"\n# Name queueing (allows you to snipe multiple names sequentially)\n# Note: This is an optional feature, leave it as it is if you only want to snipe one name at a time\n# Example:\n# name_queue = [\"Marc\", \"Dream\"]\nname_queue = []\n"@
}

/// The configuration written for a user who has none yet.
pub fn get_default_config() -> (r: String)
    ensures
        r@ == default_config_text(),
{
    String::from_str(
        "[account]\nemail = \"test@example.com\"\npassword = \"test\"\n# Leave the rest empty if you do not have security questions\nsq1 = \"Foo\"\nsq2 = \"Bar\"\nsq3 = \"Baz\"\n\n[config]\noffset = 0\nauto_offset = false\n# Spread (if you are unsure, leave this as it is)\nspread = 0\nmicrosoft_auth = false\ngc_snipe = false\nchange_skin = false\nskin_model = \"slim\"\nskin_filename = \"example.png\"\n# Name queueing (allows you to snipe multiple names sequentially)\n# Note: This is an optional feature, leave it as it is if you only want to snipe one name at a time\n# Example:\n# name_queue = [\"Marc\", \"Dream\"]\nname_queue = []\n",
    )
}

} // verus!
