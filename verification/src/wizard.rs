//! The choices of an import: what becomes of each key that the user picked, and
//! the calls that bring it into the vault.
//!
//! For each key the user is led through a chain of questions. A [`KeyStep`]
//! says what to ask; the answer is taken up by the function named after the
//! question, and the last step says what to do with the key.

use vstd::prelude::*;

use crate::bitwarden::{
    capture_failure, changed_id, create_answer, edit_answer, encode_answer,
    without_line_end_bytes, BitwardenCli, Broken, CliView, Session, CIPHER_TYPE_SSH_KEY,
};
use crate::import::{held_view, Candidate, CandidateView, VaultKeyRef, VaultKeyRefView};
use crate::json::{
    field_views, json_string, json_with_number, json_with_text, json_with_texts, set_json_number,
    set_json_text, set_json_texts, written,
};
use crate::openssh::{free_private_key, freed_private_key};
use crate::process::{
    because, ran, run_failure, with_context, Invocation, InvocationView, Output, Ran,
};
use crate::secret::Secret;
use crate::text;

verus! {

// --- choices ----------------------------------------------------------------

/// Where in the vault a key goes.
pub enum Target {
    /// Into a new item.
    Create,
    /// Into the item with this id, in place of what it holds.
    Overwrite(String),
}

/// The contents of a [`Target`].
pub enum TargetView {
    Create,
    Overwrite(Seq<char>),
}

impl View for Target {
    type V = TargetView;

    open spec fn view(&self) -> TargetView {
        match self {
            Target::Create => TargetView::Create,
            Target::Overwrite(id) => TargetView::Overwrite(id@),
        }
    }
}

/// What is settled about a key while the user is asked about the rest.
pub struct Choice {
    /// Where it goes.
    pub target: Target,
    /// The name that its item has unless the user gives another.
    pub default_name: String,
}

/// The contents of a [`Choice`].
pub struct ChoiceView {
    pub target: TargetView,
    pub default_name: Seq<char>,
}

impl View for Choice {
    type V = ChoiceView;

    open spec fn view(&self) -> ChoiceView {
        ChoiceView { target: self.target@, default_name: self.default_name@ }
    }
}

/// What to do with a key that is protected by a passphrase.
#[derive(Clone, Copy, PartialEq, Eq, Structural, Debug)]
pub enum Protection {
    /// Take the passphrase off now, so that the key can be served.
    Decrypt,
    /// Store it as it is: a backup, which cannot be served.
    StoreEncrypted,
    /// Leave it out.
    Skip,
}

/// A key on its way into the vault.
pub struct Draft {
    pub target: Target,
    /// The name of its item.
    pub name: String,
    pub private_key: Secret,
    pub public_key: String,
    pub fingerprint: String,
}

/// The contents of a [`Draft`].
pub struct DraftView {
    pub target: TargetView,
    pub name: Seq<char>,
    pub private_key: Seq<char>,
    pub public_key: Seq<char>,
    pub fingerprint: Seq<char>,
}

impl View for Draft {
    type V = DraftView;

    open spec fn view(&self) -> DraftView {
        DraftView {
            target: self.target@,
            name: self.name@,
            private_key: self.private_key@,
            public_key: self.public_key@,
            fingerprint: self.fingerprint@,
        }
    }
}

/// What to ask about a key, or what to do with it.
pub enum KeyStep {
    /// The vault has this key, under this name: overwrite it, or skip the key?
    AskDuplicate(String, Choice),
    /// The key has a passphrase: what to do with it? The flag says that the
    /// last passphrase was refused.
    AskProtection(bool, Choice),
    /// What is the passphrase?
    AskPassphrase(Choice),
    /// What is the name of the item to be? The private key is to be stored as it
    /// stands here.
    AskName(Secret, Choice),
    /// Bring it into the vault.
    Import(Draft),
    /// Leave it out.
    Skip,
}

/// The contents of a [`KeyStep`].
pub enum KeyStepView {
    AskDuplicate(Seq<char>, ChoiceView),
    AskProtection(bool, ChoiceView),
    AskPassphrase(ChoiceView),
    AskName(Seq<char>, ChoiceView),
    Import(DraftView),
    Skip,
}

impl View for KeyStep {
    type V = KeyStepView;

    open spec fn view(&self) -> KeyStepView {
        match self {
            KeyStep::AskDuplicate(name, choice) => KeyStepView::AskDuplicate(name@, choice@),
            KeyStep::AskProtection(refused, choice) => KeyStepView::AskProtection(
                *refused,
                choice@,
            ),
            KeyStep::AskPassphrase(choice) => KeyStepView::AskPassphrase(choice@),
            KeyStep::AskName(key, choice) => KeyStepView::AskName(key@, choice@),
            KeyStep::Import(draft) => KeyStepView::Import(draft@),
            KeyStep::Skip => KeyStepView::Skip,
        }
    }
}

/// What a key is called unless the user says otherwise: its comment, or its
/// fingerprint where it has none.
pub open spec fn own_name(c: CandidateView) -> Seq<char> {
    if c.comment.len() == 0 {
        c.fingerprint
    } else {
        c.comment
    }
}

/// What follows once it is settled where a key goes.
pub open spec fn after_target(c: CandidateView, choice: ChoiceView) -> KeyStepView {
    if c.encrypted {
        KeyStepView::AskProtection(false, choice)
    } else {
        KeyStepView::AskName(c.private_pem, choice)
    }
}

/// What is asked first about a key that the vault holds as `held`, if it does.
pub open spec fn first_question(c: CandidateView, held: Option<VaultKeyRefView>) -> KeyStepView {
    match held {
        Some(v) => KeyStepView::AskDuplicate(
            v.name,
            ChoiceView { target: TargetView::Overwrite(v.id), default_name: v.name },
        ),
        None => after_target(
            c,
            ChoiceView { target: TargetView::Create, default_name: own_name(c) },
        ),
    }
}

/// What follows the answer on a key that the vault has already.
pub open spec fn after_duplicate(
    c: CandidateView,
    choice: ChoiceView,
    overwrite: bool,
) -> KeyStepView {
    if overwrite {
        after_target(c, choice)
    } else {
        KeyStepView::Skip
    }
}

/// What follows the answer on a key with a passphrase.
pub open spec fn after_protection(
    c: CandidateView,
    choice: ChoiceView,
    answer: Protection,
) -> KeyStepView {
    match answer {
        Protection::Decrypt => KeyStepView::AskPassphrase(choice),
        Protection::StoreEncrypted => KeyStepView::AskName(c.private_pem, choice),
        Protection::Skip => KeyStepView::Skip,
    }
}

/// What follows the attempt to take the passphrase off a key; `freed` is the
/// key without it, if that worked.
pub open spec fn after_passphrase(choice: ChoiceView, freed: Option<Seq<char>>) -> KeyStepView {
    match freed {
        Some(key) => KeyStepView::AskName(key, choice),
        None => KeyStepView::AskProtection(true, choice),
    }
}

/// What follows the answer on an item's name: the key is brought into the vault
/// under that name, or under the one proposed where none was given.
pub open spec fn after_name(
    c: CandidateView,
    key: Seq<char>,
    choice: ChoiceView,
    name: Seq<char>,
) -> KeyStepView {
    let given = text::trimmed(name);
    KeyStepView::Import(
        DraftView {
            target: choice.target,
            name: if given.len() == 0 {
                choice.default_name
            } else {
                given
            },
            private_key: key,
            public_key: c.public_openssh,
            fingerprint: c.fingerprint,
        },
    )
}

/// What follows once it is settled where a key goes.
fn target_settled(c: &Candidate, choice: Choice) -> (r: KeyStep)
    ensures
        r@ == after_target(c@, choice@),
{
    if c.encrypted {
        KeyStep::AskProtection(false, choice)
    } else {
        KeyStep::AskName(Secret::new(c.private_pem.clone()), choice)
    }
}

/// Begins with a key that the user picked; `held` is the vault's key with the
/// same fingerprint, if there is one.
pub fn key_picked(c: &Candidate, held: Option<&VaultKeyRef>) -> (r: KeyStep)
    ensures
        r@ == first_question(c@, held_view(held)),
{
    match held {
        Some(v) => KeyStep::AskDuplicate(
            v.name.clone(),
            Choice { target: Target::Overwrite(v.id.clone()), default_name: v.name.clone() },
        ),
        None => {
            let default_name = if c.comment.as_str().is_empty() {
                c.fingerprint.clone()
            } else {
                c.comment.clone()
            };
            target_settled(c, Choice { target: Target::Create, default_name })
        },
    }
}

/// Takes up the answer on a key that the vault has already.
pub fn duplicate_answered(c: &Candidate, choice: Choice, overwrite: bool) -> (r: KeyStep)
    ensures
        r@ == after_duplicate(c@, choice@, overwrite),
{
    if overwrite {
        target_settled(c, choice)
    } else {
        KeyStep::Skip
    }
}

/// Takes up the answer on a key with a passphrase.
pub fn protection_answered(c: &Candidate, choice: Choice, answer: Protection) -> (r: KeyStep)
    ensures
        r@ == after_protection(c@, choice@, answer),
{
    match answer {
        Protection::Decrypt => KeyStep::AskPassphrase(choice),
        Protection::StoreEncrypted => KeyStep::AskName(Secret::new(c.private_pem.clone()), choice),
        Protection::Skip => KeyStep::Skip,
    }
}

/// Takes up the key without its passphrase, if it could be taken off.
pub fn key_freed(choice: Choice, freed: Option<String>) -> (r: KeyStep)
    ensures
        r@ == after_passphrase(choice@, text::text_of(freed)),
{
    match freed {
        Some(key) => KeyStep::AskName(Secret::new(key), choice),
        None => KeyStep::AskProtection(true, choice),
    }
}

/// Takes up the passphrase of a key.
pub fn passphrase_entered(c: &Candidate, choice: Choice, passphrase: &Secret) -> (r: KeyStep)
    ensures
        r@ == after_passphrase(choice@, freed_private_key(c@.private_pem, passphrase@)),
{
    let freed = free_private_key(c.private_pem.as_str(), passphrase.expose());
    key_freed(choice, freed)
}

/// Takes up the name that the item is to have.
pub fn name_entered(c: &Candidate, key: Secret, choice: Choice, name: &str) -> (r: KeyStep)
    ensures
        r@ == after_name(c@, key@, choice@, name@),
{
    let given = text::trim(name);
    let name = if given.as_str().is_empty() {
        choice.default_name
    } else {
        given
    };
    KeyStep::Import(
        Draft {
            target: choice.target,
            name,
            private_key: key,
            public_key: c.public_openssh.clone(),
            fingerprint: c.fingerprint.clone(),
        },
    )
}

// --- bringing a key into the vault ------------------------------------------

/// What is done to bring a key into the vault.
pub enum Upload {
    /// Nothing but to say what would be done.
    Preview(String),
    /// Run this for the item that the key is filled into.
    Fetch(Invocation),
    /// Run this to encode the item, with the key filled in.
    Encode(Invocation),
    /// Run this to store the item.
    Store(Invocation),
    /// The key is in the vault, in the item with this id.
    Done(String),
    /// It could not be brought there, for this reason.
    Fail(String),
}

/// What a preview says of a key.
pub open spec fn preview_text(draft: DraftView) -> Seq<char> {
    match draft.target {
        TargetView::Create => "Would create '"@ + draft.name + "' ("@ + draft.fingerprint + ")"@,
        TargetView::Overwrite(_) => "Would overwrite '"@ + draft.name + "' ("@ + draft.fingerprint
            + ")"@,
    }
}

/// The call for the item that a key is filled into: a blank one, or the one that
/// is overwritten.
pub open spec fn fetch_call(
    cli: CliView,
    session: Seq<char>,
    target: TargetView,
) -> InvocationView {
    match target {
        TargetView::Create => cli.template_call(),
        TargetView::Overwrite(id) => cli.item_call(session, id),
    }
}

/// The call that stores the encoded item of a key.
pub open spec fn store_call(
    cli: CliView,
    session: Seq<char>,
    target: TargetView,
    encoded: Seq<u8>,
) -> InvocationView {
    match target {
        TargetView::Create => cli.create_call(session, encoded),
        TargetView::Overwrite(id) => cli.edit_call(session, id, encoded),
    }
}

/// Begins to bring a key into the vault, or only says what would be done.
pub fn start_upload(cli: &BitwardenCli, session: &Session, draft: &Draft, dry_run: bool) -> (r:
    Upload)
    ensures
        if dry_run {
            r matches Upload::Preview(said) && said@ == preview_text(draft@)
        } else {
            r matches Upload::Fetch(call) && call@ == fetch_call(cli@, session@, draft@.target)
        },
{
    if dry_run {
        let what = match &draft.target {
            Target::Create => "Would create '",
            Target::Overwrite(_) => "Would overwrite '",
        };
        Upload::Preview(
            text::cat5(what, draft.name.as_str(), "' (", draft.fingerprint.as_str(), ")"),
        )
    } else {
        match &draft.target {
            Target::Create => Upload::Fetch(cli.item_template()),
            Target::Overwrite(id) => Upload::Fetch(cli.get_item(session, id.as_str())),
        }
    }
}

/// Why the item that a key is filled into could not be had, if it could not.
pub open spec fn fetch_failure(
    target: TargetView,
    r: Ran,
) -> Option<Seq<char>> {
    match target {
        TargetView::Create => run_failure(
            ran(r),
            "running `bw get template item`"@,
            "`bw get template item` failed: "@,
        ),
        TargetView::Overwrite(id) => run_failure(
            ran(r),
            "running `bw get item`"@,
            "`bw get item "@ + id + "` failed: "@,
        ),
    }
}

/// The fields of an item's JSON that hold the key.
pub open spec fn key_fields(draft: DraftView) -> Seq<(Seq<char>, Seq<char>)> {
    seq![
        ("privateKey"@, draft.private_key),
        ("publicKey"@, draft.public_key),
        ("keyFingerprint"@, draft.fingerprint),
    ]
}

/// An item's JSON with the key filled in, or why it cannot be filled in: the type,
/// the name and the key are replaced, and all else stays.
pub open spec fn filled_item(json: Seq<u8>, draft: DraftView) -> Result<Seq<u8>, Seq<char>> {
    match json_with_number(json, "type"@, CIPHER_TYPE_SSH_KEY) {
        Err(cause) => Err(cause),
        Ok(one) => match json_with_text(one, "name"@, draft.name) {
            Err(cause) => Err(cause),
            Ok(two) => json_with_texts(two, "sshKey"@, key_fields(draft)),
        },
    }
}

/// Fills a key into the JSON of an item. The item then has the name that was
/// chosen, and whatever else it held. Why it could not be filled in is told in
/// the words of `serde_json`.
pub fn fill_item(json: &[u8], draft: &Draft) -> (r: Result<Vec<u8>, String>)
    ensures
        written(r) == filled_item(json@, draft@),
        r matches Ok(out) ==> (json_string(out@, "name"@) matches Ok(found) && found == Some(
            draft@.name,
        )),
        r matches Ok(out) ==> forall|k: Seq<char>|
            k != "type"@ && k != "name"@ && k != "sshKey"@ ==> #[trigger] json_string(out@, k)
                == json_string(json@, k),
{
    let one: Vec<u8> = match set_json_number(json, "type", CIPHER_TYPE_SSH_KEY) {
        Ok(out) => out,
        Err(e) => {
            return Err(e);
        },
    };
    let two: Vec<u8> = match set_json_text(one.as_slice(), "name", draft.name.as_str()) {
        Ok(out) => out,
        Err(e) => {
            return Err(e);
        },
    };
    let mut fields: Vec<(String, String)> = vec![
        ("privateKey".to_owned(), draft.private_key.expose().to_owned()),
        ("publicKey".to_owned(), draft.public_key.clone()),
        ("keyFingerprint".to_owned(), draft.fingerprint.clone()),
    ];
    assert(field_views(fields@) =~= key_fields(draft@));
    let filled = set_json_texts(two.as_slice(), "sshKey", &fields);
    text::wipe_text(&mut fields[0].1);
    proof {
        reveal_strlit("name");
        reveal_strlit("sshKey");
        assert("name"@.len() != "sshKey"@.len());
    }
    filled
}

/// What is said where the item that a key is filled into makes no sense.
pub open spec fn filling(target: TargetView) -> Seq<char> {
    match target {
        TargetView::Create => "parsing `bw get template item` output"@,
        TargetView::Overwrite(_) => "parsing `bw get item` output"@,
    }
}

/// Takes up the item that a key is to be filled into. The key goes to `bw` on
/// standard input.
pub fn item_fetched(cli: &BitwardenCli, draft: &Draft, r: Ran) -> (res: Upload)
    ensures
        match fetch_failure(draft@.target, r) {
            Some(e) => res matches Upload::Fail(why) && why@ == e,
            None => match filled_item(ran(r)->Ok_0.stdout, draft@) {
                Ok(json) => res matches Upload::Encode(call) && call@ == cli@.encode_call(json),
                Err(cause) => res matches Upload::Fail(why) && why@ == because(
                    filling(draft@.target),
                    cause,
                ),
            },
        },
{
    let answer = match &draft.target {
        Target::Create => BitwardenCli::template_answer(r),
        Target::Overwrite(id) => BitwardenCli::item_answer(id.as_str(), r),
    };
    let json: Vec<u8> = match answer {
        Ok(json) => json,
        Err(e) => {
            return Upload::Fail(e);
        },
    };
    match fill_item(json.as_slice(), draft) {
        Ok(filled) => Upload::Encode(cli.encode_item(filled)),
        Err(cause) => {
            let context = match &draft.target {
                Target::Create => "parsing `bw get template item` output",
                Target::Overwrite(_) => "parsing `bw get item` output",
            };
            Upload::Fail(with_context(context, cause.as_str()))
        },
    }
}

/// Takes up what came of encoding the item. `args` are the arguments of that
/// call.
pub fn item_encoded(
    cli: &BitwardenCli,
    session: &Session,
    draft: &Draft,
    args: &Vec<String>,
    r: Result<Output, Broken>,
) -> (res: Upload)
    ensures
        match capture_failure(text::texts(args@), r) {
            Some(e) => res matches Upload::Fail(why) && why@ == because("running `bw encode`"@, e),
            None => res matches Upload::Store(call) && call@ == store_call(
                cli@,
                session@,
                draft@.target,
                without_line_end_bytes(r->Ok_0.stdout@),
            ),
        },
{
    match encode_answer(args, r) {
        Ok(encoded) => match &draft.target {
            Target::Create => Upload::Store(cli.create_item(session, encoded)),
            Target::Overwrite(id) => Upload::Store(cli.edit_item(session, id.as_str(), encoded)),
        },
        Err(e) => Upload::Fail(e),
    }
}

/// What the call that stores an item is named in messages.
pub open spec fn storing(target: TargetView) -> Seq<char> {
    match target {
        TargetView::Create => "running `bw create item`"@,
        TargetView::Overwrite(_) => "running `bw edit item`"@,
    }
}

/// Takes up what came of storing the item. `args` are the arguments of that
/// call.
pub fn item_stored(draft: &Draft, args: &Vec<String>, r: Result<Output, Broken>) -> (res: Upload)
    ensures
        match changed_id(storing(draft@.target), text::texts(args@), r) {
            Ok(id) => res matches Upload::Done(stored) && stored@ == id,
            Err(e) => res matches Upload::Fail(why) && why@ == e,
        },
{
    let answer = match &draft.target {
        Target::Create => create_answer(args, r),
        Target::Overwrite(_) => edit_answer(args, r),
    };
    match answer {
        Ok(id) => Upload::Done(id),
        Err(e) => Upload::Fail(e),
    }
}

/// Whether the user is asked to have the daemon read the keys anew: only where
/// something was stored and the daemon is there.
pub fn offers_refresh(stored: usize, daemon_running: bool) -> (r: bool)
    ensures
        r == (stored > 0 && daemon_running),
{
    stored > 0 && daemon_running
}

// --- laws -------------------------------------------------------------------

/// What is settled at a step, where the key is still on its way.
pub open spec fn settled(step: KeyStepView) -> Option<TargetView> {
    match step {
        KeyStepView::AskDuplicate(_, choice) => Some(choice.target),
        KeyStepView::AskProtection(_, choice) => Some(choice.target),
        KeyStepView::AskPassphrase(choice) => Some(choice.target),
        KeyStepView::AskName(_, choice) => Some(choice.target),
        KeyStepView::Import(draft) => Some(draft.target),
        KeyStepView::Skip => None,
    }
}

/// An item of the vault is overwritten only after the user said so, and then
/// only the one that has the key: a key that the vault does not have goes into a
/// new item, one that it has leads to the question first, and nothing that
/// follows points the key at another item.
pub proof fn nothing_is_overwritten_unasked(
    c: CandidateView,
    held: VaultKeyRefView,
    choice: ChoiceView,
    answer: Protection,
    key: Seq<char>,
    freed: Option<Seq<char>>,
    name: Seq<char>,
)
    ensures
        settled(first_question(c, None)) == Some(TargetView::Create),
        first_question(c, Some(held)) is AskDuplicate,
        settled(first_question(c, Some(held))) == Some(TargetView::Overwrite(held.id)),
        after_duplicate(c, choice, false) is Skip,
        settled(after_duplicate(c, choice, true)) == Some(choice.target),
        settled(after_protection(c, choice, answer)) matches Some(t) ==> t == choice.target,
        settled(after_passphrase(choice, freed)) == Some(choice.target),
        settled(after_name(c, key, choice, name)) == Some(choice.target),
{
}

/// A passphrase is taken off a key only where the user chose that: without it,
/// what is stored is what the key's file holds, and a key without a passphrase
/// leads to no question about one.
pub proof fn a_passphrase_is_taken_off_only_on_request(c: CandidateView, choice: ChoiceView)
    ensures
        c.encrypted ==> after_target(c, choice) is AskProtection,
        !c.encrypted ==> after_target(c, choice) == KeyStepView::AskName(c.private_pem, choice),
        after_protection(c, choice, Protection::StoreEncrypted) == KeyStepView::AskName(
            c.private_pem,
            choice,
        ),
        after_protection(c, choice, Protection::Skip) is Skip,
{
}

/// The private key, the session and the encoded item stay out of what other
/// users can see of the calls that bring a key into the vault.
pub proof fn imported_keys_stay_out_of_sight(
    cli: CliView,
    session: Seq<char>,
    other: Seq<char>,
    target: TargetView,
    json: Seq<u8>,
    other_json: Seq<u8>,
)
    ensures
        fetch_call(cli, session, target).visible == fetch_call(cli, other, target).visible,
        cli.encode_call(json).visible == cli.encode_call(other_json).visible,
        store_call(cli, session, target, json).visible == store_call(
            cli,
            other,
            target,
            other_json,
        ).visible,
{
}

/// A key that the vault does not have, and that has no passphrase, is asked for a
/// name and then stored in a new item as its file holds it, with its own public half
/// and fingerprint. Its name is the one that was typed, without whitespace around
/// it, or else its comment, or else its fingerprint.
pub proof fn a_new_key_is_stored_as_its_file_holds_it(
    c: CandidateView,
    head: Seq<char>,
    name: Seq<char>,
    tail: Seq<char>,
)
    requires
        forall|i: int| 0 <= i < head.len() ==> text::is_whitespace(#[trigger] head[i]),
        forall|i: int| 0 <= i < tail.len() ==> text::is_whitespace(#[trigger] tail[i]),
        name.len() > 0 ==> !text::is_whitespace(name[0]) && !text::is_whitespace(name.last()),
        !c.encrypted,
    ensures
        first_question(c, None) matches KeyStepView::AskName(key, choice) && key == c.private_pem
            && choice.target == TargetView::Create && after_name(
            c,
            key,
            choice,
            head + name + tail,
        ) == KeyStepView::Import(
            DraftView {
                target: TargetView::Create,
                name: if name.len() > 0 {
                    name
                } else if c.comment.len() > 0 {
                    c.comment
                } else {
                    c.fingerprint
                },
                private_key: c.private_pem,
                public_key: c.public_openssh,
                fingerprint: c.fingerprint,
            },
        ),
{
    text::trimming_takes_whitespace_alone(head, name, tail);
}

/// A key that the vault has leads to the question whether to overwrite that very
/// item; where the user says so, it goes on like a new key, into that item and under
/// its name unless another is given, and where not, it is left out.
pub proof fn a_known_key_replaces_its_own_item(
    c: CandidateView,
    held: VaultKeyRefView,
    key: Seq<char>,
)
    ensures
        ({
            let choice = ChoiceView {
                target: TargetView::Overwrite(held.id),
                default_name: held.name,
            };
            &&& first_question(c, Some(held)) == KeyStepView::AskDuplicate(held.name, choice)
            &&& after_duplicate(c, choice, false) == KeyStepView::Skip
            &&& !c.encrypted ==> after_duplicate(c, choice, true) == KeyStepView::AskName(
                c.private_pem,
                choice,
            )
            &&& c.encrypted ==> after_duplicate(c, choice, true) == KeyStepView::AskProtection(
                false,
                choice,
            )
            &&& after_name(c, key, choice, Seq::empty()) == KeyStepView::Import(
                DraftView {
                    target: TargetView::Overwrite(held.id),
                    name: held.name,
                    private_key: key,
                    public_key: c.public_openssh,
                    fingerprint: c.fingerprint,
                },
            )
        }),
{
    let none = Seq::<char>::empty();
    assert(none + none + none =~= none);
    text::trimming_takes_whitespace_alone(none, none, none);
}

/// A key with a passphrase is stored as it is, freed of it, or left out, as the user
/// says. Freed, it is the key without the passphrase that goes on; where the
/// passphrase is refused, the question is put again and nothing else has changed.
pub proof fn a_protected_key_goes_the_way_that_was_chosen(
    c: CandidateView,
    choice: ChoiceView,
    freed: Seq<char>,
)
    requires
        c.encrypted,
    ensures
        first_question(c, None) matches KeyStepView::AskProtection(false, first) && first.target
            == TargetView::Create,
        after_protection(c, choice, Protection::StoreEncrypted) == KeyStepView::AskName(
            c.private_pem,
            choice,
        ),
        after_protection(c, choice, Protection::Decrypt) == KeyStepView::AskPassphrase(choice),
        after_protection(c, choice, Protection::Skip) == KeyStepView::Skip,
        after_passphrase(choice, Some(freed)) == KeyStepView::AskName(freed, choice),
        after_passphrase(choice, None) == KeyStepView::AskProtection(true, choice),
{
}

/// A passphrase is tried on the key in the candidate's file: what it frees is what
/// goes on.
pub proof fn a_passphrase_frees_the_key_in_the_file(
    c: &Candidate,
    choice: Choice,
    passphrase: &Secret,
    r: KeyStep,
)
    requires
        call_ensures(passphrase_entered, (c, choice, passphrase), r),
    ensures
        freed_private_key(c.private_pem@, passphrase@) matches Some(key) ==> r@
            == KeyStepView::AskName(key, choice@),
        freed_private_key(c.private_pem@, passphrase@) is None ==> r@
            == KeyStepView::AskProtection(true, choice@),
{
}

/// An item is filled with the key by putting its type, its name and the three parts
/// of the key in their places, one after the other; the first of them that cannot be
/// put there is why it fails.
pub proof fn an_item_is_filled_part_by_part(
    json: Seq<u8>,
    draft: DraftView,
    one: Seq<u8>,
    two: Seq<u8>,
    e: Seq<char>,
)
    ensures
        json_with_number(json, "type"@, 5) == Ok::<Seq<u8>, Seq<char>>(one) && json_with_text(
            one,
            "name"@,
            draft.name,
        ) == Ok::<Seq<u8>, Seq<char>>(two) ==> filled_item(json, draft) == json_with_texts(
            two,
            "sshKey"@,
            seq![
                ("privateKey"@, draft.private_key),
                ("publicKey"@, draft.public_key),
                ("keyFingerprint"@, draft.fingerprint),
            ],
        ),
        json_with_number(json, "type"@, 5) == Err::<Seq<u8>, Seq<char>>(e) ==> filled_item(
            json,
            draft,
        ) == Err::<Seq<u8>, Seq<char>>(e),
        json_with_number(json, "type"@, 5) == Ok::<Seq<u8>, Seq<char>>(one) && json_with_text(
            one,
            "name"@,
            draft.name,
        ) == Err::<Seq<u8>, Seq<char>>(e) ==> filled_item(json, draft) == Err::<
            Seq<u8>,
            Seq<char>,
        >(e),
{
}

/// A new key is filled into a blank item and creates one; a key that overwrites an
/// item is filled into that item and replaces it, and no other.
pub proof fn a_key_is_stored_where_it_was_meant_to_be(
    cli: CliView,
    session: Seq<char>,
    id: Seq<char>,
    encoded: Seq<u8>,
)
    ensures
        fetch_call(cli, session, TargetView::Create) == cli.template_call(),
        fetch_call(cli, session, TargetView::Overwrite(id)) == cli.item_call(session, id),
        store_call(cli, session, TargetView::Create, encoded) == cli.create_call(session, encoded),
        store_call(cli, session, TargetView::Overwrite(id), encoded) == cli.edit_call(
            session,
            id,
            encoded,
        ),
{
}

/// A preview says what would be done to which item, and with which key.
pub proof fn a_preview_says_what_would_be_done(draft: DraftView)
    ensures
        draft.target is Create ==> preview_text(draft) == "Would create '"@ + draft.name + "' ("@
            + draft.fingerprint + ")"@,
        draft.target is Overwrite ==> preview_text(draft) == "Would overwrite '"@ + draft.name
            + "' ("@ + draft.fingerprint + ")"@,
{
}

/// What goes wrong on the way is told with the call that it happened in, which is the
/// one for a new item or the one for the item that is overwritten.
pub proof fn the_call_that_failed_is_named(id: Seq<char>, cause: String, out: Output)
    ensures
        fetch_failure(TargetView::Create, Err(cause)) == Some(
            "running `bw get template item`: "@ + cause@,
        ),
        fetch_failure(TargetView::Overwrite(id), Err(cause)) == Some(
            "running `bw get item`: "@ + cause@,
        ),
        fetch_failure(TargetView::Create, Ok(out)) is None <==> out.success,
        fetch_failure(TargetView::Overwrite(id), Ok(out)) is None <==> out.success,
        filling(TargetView::Create) == "parsing `bw get template item` output"@,
        filling(TargetView::Overwrite(id)) == "parsing `bw get item` output"@,
        storing(TargetView::Create) == "running `bw create item`"@,
        storing(TargetView::Overwrite(id)) == "running `bw edit item`"@,
{
    reveal_strlit(": ");
    reveal_strlit("running `bw get template item`");
    reveal_strlit("running `bw get template item`: ");
    assert("running `bw get template item`"@ + ": "@ =~= "running `bw get template item`: "@);
    reveal_strlit("running `bw get item`");
    reveal_strlit("running `bw get item`: ");
    assert("running `bw get item`"@ + ": "@ =~= "running `bw get item`: "@);
}

/// The fetched item, with the key filled in, is what is encoded; what came of the
/// encoding, without the line end behind it, is what is stored; and the item's id is
/// what the user is told in the end.
pub proof fn a_key_is_carried_through_to_the_vault(
    cli: &BitwardenCli,
    session: &Session,
    draft: &Draft,
    fetched: Output,
    encoded: Output,
    stored: Output,
    encode_args: &Vec<String>,
    store_args: &Vec<String>,
    code: Seq<u8>,
    end: Seq<u8>,
    json: Seq<u8>,
    id: Seq<char>,
    one: Upload,
    two: Upload,
    three: Upload,
)
    requires
        fetched.success,
        encoded.success,
        stored.success,
        encoded.stdout@ == code + end,
        forall|i: int| 0 <= i < end.len() ==> (#[trigger] end[i]) == 0x0a || end[i] == 0x0d,
        code.len() > 0 ==> code.last() != 0x0a && code.last() != 0x0d,
        filled_item(fetched.stdout@, draft@) == Ok::<Seq<u8>, Seq<char>>(json),
        json_string(stored.stdout@, "id"@) == Ok::<Option<Seq<char>>, Seq<char>>(Some(id)),
        call_ensures(item_fetched, (cli, draft, Ok::<Output, String>(fetched)), one),
        call_ensures(
            item_encoded,
            (cli, session, draft, encode_args, Ok::<Output, Broken>(encoded)),
            two,
        ),
        call_ensures(item_stored, (draft, store_args, Ok::<Output, Broken>(stored)), three),
    ensures
        one matches Upload::Encode(call) && call@ == cli@.encode_call(json),
        two matches Upload::Store(call) && call@ == (match draft@.target {
            TargetView::Create => cli@.create_call(session@, code),
            TargetView::Overwrite(item) => cli@.edit_call(session@, item, code),
        }),
        three matches Upload::Done(told) && told@ == id,
{
    crate::bitwarden::only_line_ends_are_taken_off(code, end);
}

/// Targets, choices, drafts and steps are what stands in them.
pub proof fn choices_are_what_stands_in_them(
    id: String,
    choice: Choice,
    draft: Draft,
    name: String,
    refused: bool,
    key: Secret,
)
    ensures
        Target::Create@ == TargetView::Create,
        Target::Overwrite(id)@ == TargetView::Overwrite(id@),
        choice@.target == choice.target@,
        choice@.default_name == choice.default_name@,
        draft@.target == draft.target@,
        draft@.name == draft.name@,
        draft@.private_key == draft.private_key@,
        draft@.public_key == draft.public_key@,
        draft@.fingerprint == draft.fingerprint@,
        KeyStep::AskDuplicate(name, choice)@ == KeyStepView::AskDuplicate(name@, choice@),
        KeyStep::AskProtection(refused, choice)@ == KeyStepView::AskProtection(refused, choice@),
        KeyStep::AskPassphrase(choice)@ == KeyStepView::AskPassphrase(choice@),
        KeyStep::AskName(key, choice)@ == KeyStepView::AskName(key@, choice@),
        KeyStep::Import(draft)@ == KeyStepView::Import(draft@),
        KeyStep::Skip@ == KeyStepView::Skip,
{
}

/// A dry run only says what would be done; any other fetches the item that the key is
/// filled into.
pub proof fn a_dry_run_runs_nothing(
    cli: &BitwardenCli,
    session: &Session,
    draft: &Draft,
    dry: Upload,
    wet: Upload,
)
    requires
        call_ensures(start_upload, (cli, session, draft, true), dry),
        call_ensures(start_upload, (cli, session, draft, false), wet),
    ensures
        dry matches Upload::Preview(said) && said@ == preview_text(draft@),
        wet matches Upload::Fetch(call) && call@ == fetch_call(cli@, session@, draft@.target),
{
}

/// The daemon is asked to read the keys anew only where something was stored and it is
/// there.
pub proof fn a_refresh_is_offered_for_a_reason(stored: usize, running: bool, r: bool)
    requires
        call_ensures(offers_refresh, (stored, running), r),
    ensures
        r <==> stored > 0 && running,
{
}

/// The questions about a key are put in the order that its state asks for, and each
/// answer is taken up as it was given.
pub proof fn the_questions_follow_the_answers(
    c: &Candidate,
    choice: Choice,
    key: Secret,
    name: &str,
    picked: KeyStep,
    overwritten: KeyStep,
    skipped: KeyStep,
    stored: KeyStep,
    named: KeyStep,
)
    requires
        call_ensures(key_picked, (c, None::<&VaultKeyRef>), picked),
        call_ensures(duplicate_answered, (c, choice, true), overwritten),
        call_ensures(duplicate_answered, (c, choice, false), skipped),
        call_ensures(protection_answered, (c, choice, Protection::StoreEncrypted), stored),
        call_ensures(name_entered, (c, key, choice, name), named),
    ensures
        c.encrypted ==> picked@ is AskProtection && overwritten@ == KeyStepView::AskProtection(
            false,
            choice@,
        ),
        !c.encrypted ==> picked@ is AskName && overwritten@ == KeyStepView::AskName(
            c.private_pem@,
            choice@,
        ),
        skipped@ is Skip,
        stored@ == KeyStepView::AskName(c.private_pem@, choice@),
        named@ matches KeyStepView::Import(draft) && draft.private_key == key@ && draft.public_key
            == c.public_openssh@ && draft.fingerprint == c.fingerprint@ && draft.target
            == choice@.target && (text::trimmed(name@).len() > 0 ==> draft.name == text::trimmed(
            name@,
        )) && (text::trimmed(name@).len() == 0 ==> draft.name == choice@.default_name),
{
}

/// An item that a key was filled into has the name that was chosen, and all that it held
/// besides its type, its name and its key.
pub proof fn a_filled_item_keeps_the_rest(
    json: &[u8],
    draft: &Draft,
    r: Result<Vec<u8>, String>,
    other: Seq<char>,
)
    requires
        call_ensures(fill_item, (json, draft), r),
    ensures
        r matches Ok(out) ==> (json_string(out@, "name"@) matches Ok(name) && name == Some(
            draft.name@,
        )),
        r matches Ok(out) ==> (other != "type"@ && other != "name"@ && other != "sshKey"@
            ==> json_string(out@, other) == json_string(json@, other)),
        written(r) == filled_item(json@, draft@),
{
}

} // verus!
