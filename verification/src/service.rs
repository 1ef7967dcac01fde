use vstd::prelude::*;
use vstd::string::*;

use crate::sign;

verus! {

/// Vendor-API client state: the bearer token and the signing secret, both
/// immutable once constructed.
pub struct Service {
    pub switch_bot_token: String,
    pub switch_bot_secret: String,
}

/// A parsed vendor command response. The vendor reports success with its own
/// status code 100 (distinct from HTTP status codes) and carries a message
/// otherwise.
pub struct CommandResult {
    pub status_code: i32,
    pub message: String,
}

/// An unsigned vendor command call: bearer authentication against the v1.0
/// endpoint.
pub struct BotCommand {
    pub url: String,
    pub authorization: String,
    pub command: String,
}

/// A signed vendor command call: HMAC authentication against the v1.1
/// endpoint, with the signature, nonce and timestamp headers.
pub struct SignedBotCommand {
    pub url: String,
    pub authorization: String,
    pub sign: String,
    pub nonce: String,
    pub t: i64,
    pub t_str: String,
    pub command: String,
}

/// The body of every vendor command call: the command name together with the
/// fixed `parameter` and `commandType` values the vendor expects.
pub struct CommandBody {
    pub command: String,
    pub parameter: String,
    pub command_type: String,
}

/// Builds the vendor command body for the given command name.
pub fn command_body(command: &str) -> (r: CommandBody)
    ensures
        r.command@ == command@,
        r.parameter@ == "default"@,
        r.command_type@ == "command"@,
{
    CommandBody {
        command: command.to_owned(),
        parameter: "default".to_owned(),
        command_type: "command".to_owned(),
    }
}

/// The v1.0 command endpoint for a device.
pub open spec fn command_url_v1_0(device_id: Seq<char>) -> Seq<char> {
    "https://api.switch-bot.com/v1.0/devices/"@ + device_id + "/commands"@
}

/// The v1.1 command endpoint for a device.
pub open spec fn command_url_v1_1(device_id: Seq<char>) -> Seq<char> {
    "https://api.switch-bot.com/v1.1/devices/"@ + device_id + "/commands"@
}

/// Relies on chrono::Local::now and DateTime::timestamp_millis: the current
/// wall-clock time in milliseconds since the Unix epoch; nothing can be
/// promised of a clock reading.
#[verifier::external_body]
fn current_timestamp_millis() -> i64 {
    chrono::Local::now().timestamp_millis()
}

impl Service {
    pub fn new(switch_bot_token: String, switch_bot_secret: String) -> (s: Self)
        ensures
            s.switch_bot_token@ == switch_bot_token@,
            s.switch_bot_secret@ == switch_bot_secret@,
    {
        Self { switch_bot_token, switch_bot_secret }
    }

    pub fn clone(&self) -> (s: Self)
        ensures
            s.switch_bot_token@ == self.switch_bot_token@,
            s.switch_bot_secret@ == self.switch_bot_secret@,
    {
        Self {
            switch_bot_token: self.switch_bot_token.clone(),
            switch_bot_secret: self.switch_bot_secret.clone(),
        }
    }

    /// Builds the bearer-authenticated press command for the interphone
    /// button device.
    pub fn push_button_request(&self, bot_id: &str) -> (r: BotCommand)
        ensures
            r.url@ == command_url_v1_0(bot_id@),
            r.authorization@ == "Bearer "@ + self.switch_bot_token@,
            r.command@ == "press"@,
    {
        self.exec_command_request(bot_id, "press")
    }

    /// Builds the bearer-authenticated v1.0 command call for a device.
    fn exec_command_request(&self, device_id: &str, command: &str) -> (r: BotCommand)
        ensures
            r.url@ == command_url_v1_0(device_id@),
            r.authorization@ == "Bearer "@ + self.switch_bot_token@,
            r.command@ == command@,
    {
        let url = "https://api.switch-bot.com/v1.0/devices/".to_owned().concat(device_id).concat(
            "/commands",
        );
        let authorization = "Bearer ".to_owned().concat(self.switch_bot_token.as_str());
        BotCommand { url, authorization, command: command.to_owned() }
    }

    /// Builds the HMAC-signed unlock command for the lock device: draws a
    /// fresh 24-character nonce and the current timestamp, and signs
    /// token + timestamp + nonce with the signing secret.
    pub fn open_lock_request(&self, bot_id: &str) -> (r: SignedBotCommand)
        ensures
            r.url@ == command_url_v1_1(bot_id@),
            r.authorization@ == self.switch_bot_token@,
            r.command@ == "unlock"@,
            r.nonce@.len() == 24,
            forall|i: int| 0 <= i < 24 ==> sign::is_nonce_char(#[trigger] r.nonce@[i]),
            r.t_str@ == sign::dec_rep(r.t as int),
            r.sign@ == sign::spec_signature(
                self.switch_bot_secret@,
                self.switch_bot_token@,
                r.t,
                r.nonce@,
            ),
    {
        let t = current_timestamp_millis();
        let nonce = sign::random_string(24);
        let t_str = sign::i64_to_string(t);
        let signature = sign::compute_sign(
            self.switch_bot_secret.as_str(),
            self.switch_bot_token.as_str(),
            t,
            nonce.as_str(),
        );
        let url = "https://api.switch-bot.com/v1.1/devices/".to_owned().concat(bot_id).concat(
            "/commands",
        );
        SignedBotCommand {
            url,
            authorization: self.switch_bot_token.clone(),
            sign: signature,
            nonce,
            t,
            t_str,
            command: "unlock".to_owned(),
        }
    }
}

} // verus!
