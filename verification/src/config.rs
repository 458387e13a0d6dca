//! Configuration: collected once from the process environment into one
//! value, which is then handed to whoever needs it.

use vstd::prelude::*;

use crate::text::{borrowed_text_of, owned_text, str_eq, text_of, texts};

verus! {

/// One variable of the environment.
#[derive(Debug)]
pub struct Variable {
    pub name: String,
    pub value: String,
}

/// The environment as a list of variables. Where a name occurs twice, the
/// first occurrence counts.
#[derive(Debug)]
pub struct Environment {
    pub variables: Vec<Variable>,
}

impl View for Environment {
    type V = Seq<(Seq<char>, Seq<char>)>;

    open spec fn view(&self) -> Seq<(Seq<char>, Seq<char>)> {
        self.variables@.map_values(|variable: Variable| (variable.name@, variable.value@))
    }
}

/// The value of the variable `name` in `env`, where it is set.
pub open spec fn lookup(env: Seq<(Seq<char>, Seq<char>)>, name: Seq<char>) -> Option<Seq<char>>
    decreases env.len(),
{
    if env.len() == 0 {
        None
    } else if env[0].0 == name {
        Some(env[0].1)
    } else {
        lookup(env.drop_first(), name)
    }
}

/// The value of the variable `name` in `env`, or `default` where it is not
/// set.
pub open spec fn setting(
    env: Seq<(Seq<char>, Seq<char>)>,
    name: Seq<char>,
    default: Seq<char>,
) -> Seq<char> {
    match lookup(env, name) {
        Some(value) => value,
        None => default,
    }
}

/// Whether `c` is one of the decimal digits `0` to `9`.
pub open spec fn is_decimal_digit(c: char) -> bool {
    '0' as u32 <= c as u32 <= '9' as u32
}

/// The number that the decimal digits `digits` write.
pub open spec fn digits_value(digits: Seq<char>) -> nat
    decreases digits.len(),
{
    if digits.len() == 0 {
        0
    } else {
        10 * digits_value(digits.drop_last()) + (digits.last() as u32 - '0' as u32) as nat
    }
}

/// Whether `digits` holds decimal digits and nothing else.
pub open spec fn all_decimal_digits(digits: Seq<char>) -> bool {
    forall|i: int| 0 <= i < digits.len() ==> is_decimal_digit(#[trigger] digits[i])
}

/// `text` without the `+` that it may start with.
pub open spec fn without_plus(text: Seq<char>) -> Seq<char> {
    if text.len() > 0 && text[0] == '+' {
        text.drop_first()
    } else {
        text
    }
}

/// The number that `text` writes in decimal: an optional `+` and then one
/// digit or more, with nothing before, between or after. `None` where
/// `text` is not of that form.
pub open spec fn decimal(text: Seq<char>) -> Option<nat> {
    if without_plus(text).len() > 0 && all_decimal_digits(without_plus(text)) {
        Some(digits_value(without_plus(text)))
    } else {
        None
    }
}

/// What `str::parse::<u16>` makes of `text`: the number that it writes in
/// decimal where that fits 16 bits, `None` otherwise.
pub open spec fn parsed_u16(text: Seq<char>) -> Option<u16> {
    match decimal(text) {
        Some(value) => if value <= u16::MAX {
            Some(value as u16)
        } else {
            None
        },
        None => None,
    }
}

/// What `str::parse::<u32>` makes of `text`: the number that it writes in
/// decimal where that fits 32 bits, `None` otherwise.
pub open spec fn parsed_u32(text: Seq<char>) -> Option<u32> {
    match decimal(text) {
        Some(value) => if value <= u32::MAX {
            Some(value as u32)
        } else {
            None
        },
        None => None,
    }
}

/// What `str::to_lowercase` makes of `text`.
pub uninterp spec fn lowercased(text: Seq<char>) -> Seq<char>;

/// What `str::trim` leaves of `text`.
pub uninterp spec fn trimmed(text: Seq<char>) -> Seq<char>;

/// The place of the first `c` in `text`, or the length of `text` where it
/// holds none.
pub open spec fn first_place(text: Seq<char>, c: char) -> nat
    decreases text.len(),
{
    if text.len() == 0 {
        0
    } else if text[0] == c {
        0
    } else {
        1 + first_place(text.drop_first(), c)
    }
}

/// The pieces of `text` between its occurrences of `separator`, in their
/// order: one piece more than there are occurrences.
pub open spec fn split_on(text: Seq<char>, separator: char) -> Seq<Seq<char>>
    decreases text.len(),
{
    let i = first_place(text, separator);
    if i < text.len() {
        seq![text.take(i as int)] + split_on(text.skip(i as int + 1), separator)
    } else {
        seq![text]
    }
}

/// Reads a 16-bit number with `str::parse`, which takes an optional `+`
/// and decimal digits and nothing else, and reports an error on an empty
/// text, on any other character and on a number that does not fit.
#[verifier::external_body]
fn parse_u16(text: &str) -> (r: Option<u16>)
    ensures
        r == parsed_u16(text@),
{
    text.parse::<u16>().ok()
}

/// Reads a 32-bit number with `str::parse`, which takes an optional `+`
/// and decimal digits and nothing else, and reports an error on an empty
/// text, on any other character and on a number that does not fit.
#[verifier::external_body]
fn parse_u32(text: &str) -> (r: Option<u32>)
    ensures
        r == parsed_u32(text@),
{
    text.parse::<u32>().ok()
}

/// Puts `text` in lower case with `str::to_lowercase`. The result is named
/// by `lowercased`.
#[verifier::external_body]
fn to_lowercase(text: &str) -> (r: String)
    ensures
        r@ == lowercased(text@),
{
    text.to_lowercase()
}

/// Strips `text` of leading and trailing white space with `str::trim`. The
/// result is named by `trimmed`.
#[verifier::external_body]
fn trim(text: &str) -> (r: String)
    ensures
        r@ == trimmed(text@),
{
    text.trim().to_owned()
}

/// Cuts `text` at its commas with `str::split`, which hands out the pieces
/// between the occurrences of the separator, in their order.
#[verifier::external_body]
fn split_commas(text: &str) -> (pieces: Vec<String>)
    ensures
        texts(pieces@) == split_on(text@, ','),
{
    text.split(',').map(String::from).collect()
}

/// The entries of the list `text`: its pieces between commas, each stripped
/// of the white space around it.
pub open spec fn list_entries(text: Seq<char>) -> Seq<Seq<char>> {
    split_on(text, ',').map_values(|piece: Seq<char>| trimmed(piece))
}

/// The number that the variable `name` gives in `env`, or `default` where it
/// is not set or does not read as a 16-bit number.
pub open spec fn setting_u16(env: Seq<(Seq<char>, Seq<char>)>, name: Seq<char>, default: u16) -> u16 {
    match lookup(env, name) {
        Some(value) => match parsed_u16(value) {
            Some(number) => number,
            None => default,
        },
        None => default,
    }
}

/// The number that the variable `name` gives in `env`, or `default` where it
/// is not set or does not read as a 32-bit number.
pub open spec fn setting_u32(env: Seq<(Seq<char>, Seq<char>)>, name: Seq<char>, default: u32) -> u32 {
    match lookup(env, name) {
        Some(value) => match parsed_u32(value) {
            Some(number) => number,
            None => default,
        },
        None => default,
    }
}

/// The truth value that the variable `name` gives in `env`: `true` or
/// `false` where it reads so, `default` where it is not set or reads
/// otherwise.
pub open spec fn setting_bool(
    env: Seq<(Seq<char>, Seq<char>)>,
    name: Seq<char>,
    default: bool,
) -> bool {
    match lookup(env, name) {
        Some(value) => if value == "true"@ {
            true
        } else if value == "false"@ {
            false
        } else {
            default
        },
        None => default,
    }
}

impl Environment {
    /// An environment of the variables `pairs`, each a name and a value.
    pub fn from_pairs(pairs: Vec<(String, String)>) -> (env: Self)
        ensures
            env@ == pairs@.map_values(|pair: (String, String)| (pair.0@, pair.1@)),
    {
        let ghost all = pairs@;
        let mut pairs = pairs;
        let mut reversed: Vec<Variable> = Vec::new();
        while pairs.len() > 0
            invariant
                pairs.len() + reversed.len() == all.len(),
                pairs@ == all.take(pairs.len() as int),
                forall|k: int|
                    0 <= k < reversed.len() ==> (#[trigger] reversed[k]).name@ == all[all.len() - 1
                        - k].0@ && reversed[k].value@ == all[all.len() - 1 - k].1@,
            decreases pairs.len(),
        {
            let (name, value) = pairs.pop().unwrap();
            assert(pairs@ =~= all.take(pairs.len() as int));
            reversed.push(Variable { name, value });
        }
        let mut variables: Vec<Variable> = Vec::new();
        while reversed.len() > 0
            invariant
                variables.len() + reversed.len() == all.len(),
                forall|k: int|
                    0 <= k < reversed.len() ==> (#[trigger] reversed[k]).name@ == all[all.len() - 1
                        - k].0@ && reversed[k].value@ == all[all.len() - 1 - k].1@,
                forall|k: int|
                    0 <= k < variables.len() ==> (#[trigger] variables[k]).name@ == all[k].0@
                        && variables[k].value@ == all[k].1@,
            decreases reversed.len(),
        {
            let variable = reversed.pop().unwrap();
            variables.push(variable);
        }
        let env = Environment { variables };
        assert(env@ =~= all.map_values(|pair: (String, String)| (pair.0@, pair.1@)));
        env
    }

    /// The value of the variable `name`, where it is set.
    pub fn get(&self, name: &str) -> (value: Option<&str>)
        ensures
            borrowed_text_of(value) == lookup(self@, name@),
    {
        let ghost env = self@;
        let mut i: usize = 0;
        assert(env.skip(0) =~= env);
        while i < self.variables.len()
            invariant
                i <= self.variables.len(),
                env == self@,
                lookup(env, name@) == lookup(env.skip(i as int), name@),
            decreases self.variables.len() - i,
        {
            proof {
                assert(env.skip(i as int).drop_first() =~= env.skip(i + 1));
                assert(env.skip(i as int)[0] == env[i as int]);
            }
            if str_eq(self.variables[i].name.as_str(), name) {
                return Some(self.variables[i].value.as_str());
            }
            i += 1;
        }
        None
    }

    /// The value of the variable `name`, or `default` where it is not set.
    pub fn text(&self, name: &str, default: &str) -> (value: String)
        ensures
            value@ == setting(self@, name@, default@),
    {
        match self.get(name) {
            Some(value) => value.to_owned(),
            None => default.to_owned(),
        }
    }

    /// The number that the variable `name` gives, or `default`.
    pub fn number_u16(&self, name: &str, default: u16) -> (value: u16)
        ensures
            value == setting_u16(self@, name@, default),
    {
        match self.get(name) {
            Some(text) => match parse_u16(text) {
                Some(number) => number,
                None => default,
            },
            None => default,
        }
    }

    /// The number that the variable `name` gives, or `default`.
    pub fn number_u32(&self, name: &str, default: u32) -> (value: u32)
        ensures
            value == setting_u32(self@, name@, default),
    {
        match self.get(name) {
            Some(text) => match parse_u32(text) {
                Some(number) => number,
                None => default,
            },
            None => default,
        }
    }

    /// The truth value that the variable `name` gives, or `default`.
    pub fn flag(&self, name: &str, default: bool) -> (value: bool)
        ensures
            value == setting_bool(self@, name@, default),
    {
        match self.get(name) {
            Some(text) => {
                if str_eq(text, "true") {
                    true
                } else if str_eq(text, "false") {
                    false
                } else {
                    default
                }
            },
            None => default,
        }
    }

    /// The entries of the list that the variable `name` gives, or of the
    /// list `default` where it is not set.
    pub fn list(&self, name: &str, default: &str) -> (entries: Vec<String>)
        ensures
            texts(entries@) == list_entries(setting(self@, name@, default@)),
    {
        let text = self.text(name, default);
        let pieces = split_commas(text.as_str());
        let mut entries: Vec<String> = Vec::new();
        let mut i: usize = 0;
        while i < pieces.len()
            invariant
                i <= pieces.len(),
                entries.len() == i,
                forall|k: int| 0 <= k < i ==> (#[trigger] entries[k])@ == trimmed(pieces[k]@),
            decreases pieces.len() - i,
        {
            entries.push(trim(pieces[i].as_str()));
            i += 1;
        }
        assert(texts(entries@) =~= texts(pieces@).map_values(|piece: Seq<char>| trimmed(piece)));
        entries
    }
}

/// The configuration of the service.
#[derive(Debug)]
pub struct Config {
    pub database_url: String,
    pub base_url: String,
    pub app_name: String,
    pub app_environment: String,
    pub port: u16,
    pub email_from: String,
    pub email_from_name: String,
    pub email_provider: String,
    pub jwt_secret: String,
    pub session_secret: String,
    pub rate_limit_requests_per_minute: u32,
    pub rate_limit_burst: u32,
    pub log_level: String,
    pub log_format: String,
    pub cors_allowed_origins: Vec<String>,
    pub cors_allowed_methods: Vec<String>,
    pub cors_allowed_headers: Vec<String>,
}

/// How mail is handed to an SMTP server.
#[derive(Debug)]
pub struct SmtpConfig {
    pub host: String,
    pub port: u16,
    pub username: Option<String>,
    pub password: Option<String>,
    pub tls: bool,
}

impl Config {
    /// The configuration that `env` gives: every setting from its variable,
    /// or its default where the variable is not set or cannot be read.
    pub fn from_env(env: &Environment) -> (config: Self)
        ensures
            config.database_url@ == setting(env@, "DATABASE_URL"@, "sqlite:quick-res.db"@),
            config.base_url@ == setting(env@, "BASE_URL"@, "http://localhost:8000"@),
            config.app_name@ == setting(env@, "APP_NAME"@, "Quick Reservations"@),
            config.app_environment@ == setting(env@, "APP_ENVIRONMENT"@, "development"@),
            config.port == setting_u16(env@, "PORT"@, 8000),
            config.email_from@ == setting(env@, "EMAIL_FROM"@, "noreply@quick-res.example.com"@),
            config.email_from_name@ == setting(env@, "EMAIL_FROM_NAME"@, "Quick Reservations"@),
            config.email_provider@ == setting(env@, "EMAIL_PROVIDER"@, "console"@),
            config.jwt_secret@ == setting(
                env@,
                "JWT_SECRET"@,
                "your-jwt-secret-key-change-this-in-production"@,
            ),
            config.session_secret@ == setting(
                env@,
                "SESSION_SECRET"@,
                "your-session-secret-change-this-in-production"@,
            ),
            config.rate_limit_requests_per_minute == setting_u32(
                env@,
                "RATE_LIMIT_REQUESTS_PER_MINUTE"@,
                60,
            ),
            config.rate_limit_burst == setting_u32(env@, "RATE_LIMIT_BURST"@, 10),
            config.log_level@ == setting(env@, "LOG_LEVEL"@, "info"@),
            config.log_format@ == setting(env@, "LOG_FORMAT"@, "json"@),
            texts(config.cors_allowed_origins@) == list_entries(
                setting(
                    env@,
                    "CORS_ALLOWED_ORIGINS"@,
                    "http://localhost:3000,http://localhost:8080"@,
                ),
            ),
            texts(config.cors_allowed_methods@) == list_entries(
                setting(env@, "CORS_ALLOWED_METHODS"@, "GET,POST,PUT,DELETE,OPTIONS"@),
            ),
            texts(config.cors_allowed_headers@) == list_entries(
                setting(
                    env@,
                    "CORS_ALLOWED_HEADERS"@,
                    "Content-Type,Authorization,X-Requested-With"@,
                ),
            ),
    {
        Config {
            database_url: env.text("DATABASE_URL", "sqlite:quick-res.db"),
            base_url: env.text("BASE_URL", "http://localhost:8000"),
            app_name: env.text("APP_NAME", "Quick Reservations"),
            app_environment: env.text("APP_ENVIRONMENT", "development"),
            port: env.number_u16("PORT", 8000),
            email_from: env.text("EMAIL_FROM", "noreply@quick-res.example.com"),
            email_from_name: env.text("EMAIL_FROM_NAME", "Quick Reservations"),
            email_provider: env.text("EMAIL_PROVIDER", "console"),
            jwt_secret: env.text("JWT_SECRET", "your-jwt-secret-key-change-this-in-production"),
            session_secret: env.text(
                "SESSION_SECRET",
                "your-session-secret-change-this-in-production",
            ),
            rate_limit_requests_per_minute: env.number_u32("RATE_LIMIT_REQUESTS_PER_MINUTE", 60),
            rate_limit_burst: env.number_u32("RATE_LIMIT_BURST", 10),
            log_level: env.text("LOG_LEVEL", "info"),
            log_format: env.text("LOG_FORMAT", "json"),
            cors_allowed_origins: env.list(
                "CORS_ALLOWED_ORIGINS",
                "http://localhost:3000,http://localhost:8080",
            ),
            cors_allowed_methods: env.list("CORS_ALLOWED_METHODS", "GET,POST,PUT,DELETE,OPTIONS"),
            cors_allowed_headers: env.list(
                "CORS_ALLOWED_HEADERS",
                "Content-Type,Authorization,X-Requested-With",
            ),
        }
    }

    /// Whether mail goes out through the provider `provider`: the configured
    /// provider reads so in lower case.
    pub open spec fn provider_is(&self, provider: Seq<char>) -> bool {
        lowercased(self.email_provider@) == provider
    }

    /// How mail is handed to an SMTP server, where the provider is `smtp`:
    /// host, port, credentials and the use of TLS as `env` gives them.
    pub fn smtp_config(&self, env: &Environment) -> (smtp: Option<SmtpConfig>)
        ensures
            smtp is Some <==> self.provider_is("smtp"@),
            smtp matches Some(smtp) ==> {
                &&& smtp.host@ == setting(env@, "SMTP_HOST"@, "localhost"@)
                &&& smtp.port == setting_u16(env@, "SMTP_PORT"@, 587)
                &&& text_of(smtp.username) == lookup(env@, "SMTP_USERNAME"@)
                &&& text_of(smtp.password) == lookup(env@, "SMTP_PASSWORD"@)
                &&& smtp.tls == setting_bool(env@, "SMTP_TLS"@, true)
            },
    {
        if str_eq(to_lowercase(self.email_provider.as_str()).as_str(), "smtp") {
            Some(
                SmtpConfig {
                    host: env.text("SMTP_HOST", "localhost"),
                    port: env.number_u16("SMTP_PORT", 587),
                    username: owned_text(env.get("SMTP_USERNAME")),
                    password: owned_text(env.get("SMTP_PASSWORD")),
                    tls: env.flag("SMTP_TLS", true),
                },
            )
        } else {
            None
        }
    }

    /// The key for SendGrid, where the provider is `sendgrid` and `env` holds
    /// a key.
    pub fn sendgrid_api_key(&self, env: &Environment) -> (key: Option<String>)
        ensures
            text_of(key) == if self.provider_is("sendgrid"@) {
                lookup(env@, "SENDGRID_API_KEY"@)
            } else {
                None
            },
    {
        if str_eq(to_lowercase(self.email_provider.as_str()).as_str(), "sendgrid") {
            owned_text(env.get("SENDGRID_API_KEY"))
        } else {
            None
        }
    }

    /// Whether the service runs in production: its environment reads
    /// `production` in lower case.
    pub fn is_production(&self) -> (b: bool)
        ensures
            b == (lowercased(self.app_environment@) == "production"@),
    {
        str_eq(to_lowercase(self.app_environment.as_str()).as_str(), "production")
    }

    /// Whether the service runs in development: its environment reads
    /// `development` in lower case.
    pub fn is_development(&self) -> (b: bool)
        ensures
            b == (lowercased(self.app_environment@) == "development"@),
    {
        str_eq(to_lowercase(self.app_environment.as_str()).as_str(), "development")
    }
}

} // verus!
