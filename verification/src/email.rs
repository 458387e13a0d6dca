//! Notifications: what is sent to whom after a reservation is stored or
//! confirmed.
//!
//! The functions here decide whether a message can be sent and what it
//! says. Delivery is the caller's part, after the state change is committed:
//! a message that cannot be sent never takes a reservation back.

use vstd::prelude::*;
use vstd::string::StringSliceAdditionalSpecFns;

use crate::clock::{format_timestamp, timestamp_display, Timestamp};
use crate::config::Config;
use crate::ident::{format_id, uuid_text, Id};
use crate::models::{ConfirmedReservation, ReservationView};
use crate::text::{concat, texts};

verus! {

/// Why a message was not sent.
#[derive(Debug)]
pub enum EmailError {
    /// The transport failed; the text says how.
    SendFailure(String),
    /// The address cannot receive mail; the text is the address.
    InvalidEmail(String),
}

/// The byte `@`.
pub const AT: u8 = 0x40;

/// The byte `.`.
pub const DOT: u8 = 0x2e;

/// Whether the single `@` of `bytes` stands at `at`, with something before
/// it and, after it, a domain that holds a dot but neither starts nor ends
/// with one.
pub open spec fn splits_at(bytes: Seq<u8>, at: int) -> bool {
    &&& 0 < at < bytes.len() - 1
    &&& bytes[at] == AT
    &&& forall|j: int| 0 <= j < bytes.len() && j != at ==> bytes[j] != AT
    &&& bytes[at + 1] != DOT
    &&& bytes[bytes.len() - 1] != DOT
    &&& exists|j: int| at < j < bytes.len() && bytes[j] == DOT
}

/// Whether `bytes`, the UTF-8 form of an address, can receive mail by the
/// basic test: more than five bytes, and a single `@` that splits them into
/// a local part and a dotted domain.
pub open spec fn email_acceptable(bytes: Seq<u8>) -> bool {
    bytes.len() > 5 && exists|at: int| splits_at(bytes, at)
}

/// Whether `email` can receive mail by the basic test.
pub fn is_valid_email(email: &str) -> (ok: bool)
    ensures
        ok == email_acceptable(email.spec_bytes()),
{
    let bytes = email.as_bytes();
    let n = bytes.len();
    if n <= 5 {
        return false;
    }
    let mut at: usize = n;
    let mut i: usize = 0;
    while i < n
        invariant
            n == bytes.len(),
            bytes@ == email.spec_bytes(),
            i <= n,
            at == n || at < i,
            at < n ==> bytes@[at as int] == AT,
            forall|j: int| 0 <= j < i && j != at ==> bytes@[j] != AT,
        decreases n - i,
    {
        if bytes[i] == AT {
            if at < n {
                assert forall|candidate: int| !splits_at(bytes@, candidate) by {
                    if candidate != at {
                        assert(bytes@[at as int] == AT);
                    } else {
                        assert(bytes@[i as int] == AT);
                    }
                }
                return false;
            }
            at = i;
        }
        i += 1;
    }
    if at >= n {
        assert forall|candidate: int| !splits_at(bytes@, candidate) by {}
        return false;
    }
    assert forall|candidate: int| candidate != at implies !splits_at(bytes@, candidate) by {
        assert(bytes@[at as int] == AT);
    }
    if at == 0 || at + 1 >= n {
        return false;
    }
    if bytes[at + 1] == DOT || bytes[n - 1] == DOT {
        return false;
    }
    let mut k: usize = at + 1;
    while k < n
        invariant
            n == bytes.len(),
            n > 5,
            bytes@ == email.spec_bytes(),
            0 < at < k <= n,
            at + 1 < n,
            bytes@[at as int] == AT,
            bytes@[at + 1] != DOT,
            bytes@[n - 1] != DOT,
            forall|j: int| 0 <= j < n && j != at ==> bytes@[j] != AT,
            forall|candidate: int| candidate != at ==> !splits_at(bytes@, candidate),
            forall|j: int| at < j < k ==> bytes@[j] != DOT,
        decreases n - k,
    {
        if bytes[k] == DOT {
            assert(splits_at(bytes@, at as int));
            return true;
        }
        k += 1;
    }
    assert(!splits_at(bytes@, at as int));
    false
}

/// What a message is about.
#[derive(Debug, Clone, Copy, PartialEq, Eq, Structural)]
pub enum EmailKind {
    /// The link that verifies an email address.
    Verification,
    /// The news that a reservation is confirmed.
    Confirmation,
}

/// A message that is ready to be handed to the mail transport.
#[derive(Debug)]
pub struct OutgoingEmail {
    pub kind: EmailKind,
    pub from_name: String,
    pub from_address: String,
    pub to: String,
    pub subject: String,
    pub body: Vec<String>,
}

/// What a message holds.
pub struct EmailView {
    pub kind: EmailKind,
    pub from_name: Seq<char>,
    pub from_address: Seq<char>,
    pub to: Seq<char>,
    pub subject: Seq<char>,
    pub body: Seq<Seq<char>>,
}

impl View for OutgoingEmail {
    type V = EmailView;

    open spec fn view(&self) -> EmailView {
        EmailView {
            kind: self.kind,
            from_name: self.from_name@,
            from_address: self.from_address@,
            to: self.to@,
            subject: self.subject@,
            body: texts(self.body@),
        }
    }
}

/// The link that verifies the address of the reservation with the
/// verification token `token`.
pub open spec fn verification_link(base_url: Seq<char>, token: Seq<char>) -> Seq<char> {
    base_url + "/verify/"@ + token
}

/// The link under which the reservation `id` can be retrieved.
pub open spec fn retrieval_link(base_url: Seq<char>, id: Id) -> Seq<char> {
    base_url + "/retrieve/"@ + uuid_text(id)
}

/// The message that asks `to` to verify their address.
pub open spec fn verification_email(
    from_name: Seq<char>,
    from_address: Seq<char>,
    app_name: Seq<char>,
    base_url: Seq<char>,
    to: Seq<char>,
    token: Seq<char>,
) -> EmailView {
    EmailView {
        kind: EmailKind::Verification,
        from_name,
        from_address,
        to,
        subject: "Verify your email address for "@ + app_name,
        body: seq![
            "Please verify your email address by clicking the following link:"@,
            verification_link(base_url, token),
            "If you did not request this verification, please ignore this email."@,
            "This link will expire in 24 hours for security reasons."@,
        ],
    }
}

/// How the time `at` reads in a message: as a date and time, or not at all
/// where it cannot be printed as one.
pub open spec fn shown_time(at: Timestamp) -> Seq<char> {
    match timestamp_display(at) {
        Some(shown) => shown,
        None => Seq::empty(),
    }
}

/// The message that tells `to` that `reservation` is confirmed.
pub open spec fn confirmation_email(
    from_name: Seq<char>,
    from_address: Seq<char>,
    app_name: Seq<char>,
    base_url: Seq<char>,
    to: Seq<char>,
    reservation: ReservationView,
) -> EmailView {
    EmailView {
        kind: EmailKind::Confirmation,
        from_name,
        from_address,
        to,
        subject: "Reservation Confirmed - "@ + app_name,
        body: seq![
            "Dear "@ + reservation.user_name + ","@,
            ""@,
            "Your reservation has been confirmed!"@,
            "Reservation Details:"@,
            "- Reservation ID: "@ + uuid_text(reservation.id),
            "- Event ID: "@ + uuid_text(reservation.event_id),
            "- Status: Confirmed"@,
            "- Created: "@ + shown_time(reservation.stage->Confirmed_created_at),
            ""@,
            "Access your reservation details at:"@,
            retrieval_link(base_url, reservation.id),
            ""@,
            "Thank you for using "@ + app_name + "!"@,
        ],
    }
}

/// Prepares the message that asks `email` to verify their address with
/// `token`.
///
/// Fails with `InvalidEmail`, which carries the address, exactly where the
/// address does not pass the basic test.
pub fn send_verification(config: &Config, email: &str, token: &str) -> (r: Result<
    OutgoingEmail,
    EmailError,
>)
    ensures
        r is Ok <==> email_acceptable(email.spec_bytes()),
        r matches Ok(message) ==> message@ == verification_email(
            config.email_from_name@,
            config.email_from@,
            config.app_name@,
            config.base_url@,
            email@,
            token@,
        ),
        r matches Err(e) ==> e matches EmailError::InvalidEmail(address) && address@ == email@,
{
    if !is_valid_email(email) {
        return Err(EmailError::InvalidEmail(email.to_owned()));
    }
    let link = concat(concat(config.base_url.as_str(), "/verify/").as_str(), token);
    let mut body: Vec<String> = Vec::new();
    body.push("Please verify your email address by clicking the following link:".to_owned());
    body.push(link);
    body.push("If you did not request this verification, please ignore this email.".to_owned());
    body.push("This link will expire in 24 hours for security reasons.".to_owned());
    let message = OutgoingEmail {
        kind: EmailKind::Verification,
        from_name: config.email_from_name.clone(),
        from_address: config.email_from.clone(),
        to: email.to_owned(),
        subject: concat("Verify your email address for ", config.app_name.as_str()),
        body,
    };
    assert(message@.body =~= verification_email(
        config.email_from_name@,
        config.email_from@,
        config.app_name@,
        config.base_url@,
        email@,
        token@,
    ).body);
    Ok(message)
}

/// Prepares the message that tells `email` that `reservation` is confirmed,
/// with the link under which it can be retrieved.
///
/// Fails with `InvalidEmail`, which carries the address, exactly where the
/// address does not pass the basic test.
pub fn send_confirmation(config: &Config, email: &str, reservation: &ConfirmedReservation) -> (r:
    Result<OutgoingEmail, EmailError>)
    ensures
        r is Ok <==> email_acceptable(email.spec_bytes()),
        r matches Ok(message) ==> message@ == confirmation_email(
            config.email_from_name@,
            config.email_from@,
            config.app_name@,
            config.base_url@,
            email@,
            reservation@,
        ),
        r matches Err(e) ==> e matches EmailError::InvalidEmail(address) && address@ == email@,
{
    if !is_valid_email(email) {
        return Err(EmailError::InvalidEmail(email.to_owned()));
    }
    let id = format_id(reservation.id);
    let link = concat(concat(config.base_url.as_str(), "/retrieve/").as_str(), id.as_str());
    let mut body: Vec<String> = Vec::new();
    body.push(concat(concat("Dear ", reservation.user_name.as_str()).as_str(), ","));
    body.push("".to_owned());
    body.push("Your reservation has been confirmed!".to_owned());
    body.push("Reservation Details:".to_owned());
    body.push(concat("- Reservation ID: ", id.as_str()));
    body.push(concat("- Event ID: ", format_id(reservation.event_id).as_str()));
    body.push("- Status: Confirmed".to_owned());
    body.push(concat("- Created: ", format_timestamp(reservation.status.created_at).as_str()));
    body.push("".to_owned());
    body.push("Access your reservation details at:".to_owned());
    body.push(link);
    body.push("".to_owned());
    body.push(concat(concat("Thank you for using ", config.app_name.as_str()).as_str(), "!"));
    let message = OutgoingEmail {
        kind: EmailKind::Confirmation,
        from_name: config.email_from_name.clone(),
        from_address: config.email_from.clone(),
        to: email.to_owned(),
        subject: concat("Reservation Confirmed - ", config.app_name.as_str()),
        body,
    };
    assert(message@.body =~= confirmation_email(
        config.email_from_name@,
        config.email_from@,
        config.app_name@,
        config.base_url@,
        email@,
        reservation@,
    ).body);
    Ok(message)
}

/// The lines that show `message` on a console, for want of a transport: a
/// banner, the header, the body, and a closing rule.
pub open spec fn transcript_of(message: EmailView) -> Seq<Seq<char>> {
    seq![
        match message.kind {
            EmailKind::Verification => "=== EMAIL VERIFICATION ==="@,
            EmailKind::Confirmation => "=== RESERVATION CONFIRMATION ==="@,
        },
        "From: "@ + message.from_name + " <"@ + message.from_address + ">"@,
        "To: "@ + message.to,
        "Subject: "@ + message.subject,
        "Body:"@,
    ] + message.body + seq![
        match message.kind {
            EmailKind::Verification => "========================"@,
            EmailKind::Confirmation => "=============================="@,
        },
    ]
}

impl OutgoingEmail {
    /// The lines that show this message on a console.
    pub fn transcript(&self) -> (lines: Vec<String>)
        ensures
            texts(lines@) == transcript_of(self@),
    {
        let mut lines: Vec<String> = Vec::new();
        match self.kind {
            EmailKind::Verification => lines.push("=== EMAIL VERIFICATION ===".to_owned()),
            EmailKind::Confirmation => lines.push("=== RESERVATION CONFIRMATION ===".to_owned()),
        }
        let sender = concat(
            concat(
                concat(concat("From: ", self.from_name.as_str()).as_str(), " <").as_str(),
                self.from_address.as_str(),
            ).as_str(),
            ">",
        );
        lines.push(sender);
        lines.push(concat("To: ", self.to.as_str()));
        lines.push(concat("Subject: ", self.subject.as_str()));
        lines.push("Body:".to_owned());
        let ghost head = texts(lines@);
        let mut i: usize = 0;
        while i < self.body.len()
            invariant
                i <= self.body.len(),
                texts(lines@) == head + texts(self.body@).take(i as int),
            decreases self.body.len() - i,
        {
            let ghost before = texts(lines@);
            lines.push(self.body[i].clone());
            assert(texts(lines@) =~= before.push(self.body[i as int]@));
            assert(texts(self.body@).take(i + 1) =~= texts(self.body@).take(i as int).push(
                self.body[i as int]@,
            ));
            i += 1;
        }
        assert(texts(self.body@).take(self.body.len() as int) =~= texts(self.body@));
        let ghost before = texts(lines@);
        match self.kind {
            EmailKind::Verification => lines.push("========================".to_owned()),
            EmailKind::Confirmation => lines.push("==============================".to_owned()),
        }
        assert(texts(lines@) =~= before.push(texts(lines@).last()));
        assert(texts(lines@) =~= transcript_of(self@));
        lines
    }
}

/// The sender of the service's mail.
#[derive(Debug)]
pub struct EmailSender {
    pub sender_name: String,
}

impl EmailSender {
    /// The sender of the service's mail, under its usual name.
    pub fn new() -> (sender: Self)
        ensures
            sender.sender_name@ == "Quick Reservations"@,
    {
        EmailSender { sender_name: "Quick Reservations".to_owned() }
    }

    /// Prepares the message that asks `email` to verify their address.
    pub fn send_verification(&self, config: &Config, email: &str, token: &str) -> (r: Result<
        OutgoingEmail,
        EmailError,
    >)
        ensures
            r is Ok <==> email_acceptable(email.spec_bytes()),
            r matches Ok(message) ==> message@ == verification_email(
                config.email_from_name@,
                config.email_from@,
                config.app_name@,
                config.base_url@,
                email@,
                token@,
            ),
            r matches Err(e) ==> e matches EmailError::InvalidEmail(address) && address@
                == email@,
    {
        send_verification(config, email, token)
    }

    /// Prepares the message that tells `email` that `reservation` is
    /// confirmed.
    pub fn send_confirmation(
        &self,
        config: &Config,
        email: &str,
        reservation: &ConfirmedReservation,
    ) -> (r: Result<OutgoingEmail, EmailError>)
        ensures
            r is Ok <==> email_acceptable(email.spec_bytes()),
            r matches Ok(message) ==> message@ == confirmation_email(
                config.email_from_name@,
                config.email_from@,
                config.app_name@,
                config.base_url@,
                email@,
                reservation@,
            ),
            r matches Err(e) ==> e matches EmailError::InvalidEmail(address) && address@
                == email@,
    {
        send_confirmation(config, email, reservation)
    }
}

} // verus!
