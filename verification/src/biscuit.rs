//! Tokens: their builder, verified and unverified tokens, and third-party
//! blocks.
use vstd::prelude::*;
use biscuit_auth::builder::{BiscuitBuilder, BlockBuilder};
use biscuit_auth::{Biscuit, KeyPair, PrivateKey, PublicKey, ThirdPartyBlock, ThirdPartyRequest, UnverifiedBiscuit};
use crate::block::{
    all_convert, append_contents, block_builder_source, block_code, block_contents, code_outcome, contents_text,
    convert_params, convert_scope_params, empty_contents, key_pairs_map, term_pairs_map,
    BlockContents, PyBlockBuilder,
};
use crate::datalog::{all_bound, check_params, check_text, fact_model, fact_text, given, rule_params, rule_text, PyCheck, PyFact, PyRule};
use crate::error::{reported_by_biscuit, token_error_message, ErrorKind, PyError};
use crate::b64::url_base64;
use crate::hexfmt::{hex_encode, hex_lower};
use crate::keys::{
    key_pair_from, key_pair_model, private_key_model, public_key_model, public_key_of, KeyModel, PyAlgorithm,
    PyPrivateKey, PyPublicKey,
};
use crate::term::{fails_with, str_keys_distinct, values_well_formed, PyTerm};

verus! {

/// Declaration of biscuit-auth's token builder.
#[verifier::external_type_specification]
#[verifier::external_body]
pub struct ExBiscuitBuilder(BiscuitBuilder);

/// Declaration of biscuit-auth's verified token.
#[verifier::external_type_specification]
#[verifier::external_body]
pub struct ExBiscuit(Biscuit);

/// Declaration of biscuit-auth's unverified token.
#[verifier::external_type_specification]
#[verifier::external_body]
pub struct ExUnverifiedBiscuit(UnverifiedBiscuit);

/// Declaration of biscuit-auth's third-party block request.
#[verifier::external_type_specification]
#[verifier::external_body]
pub struct ExThirdPartyRequest(ThirdPartyRequest);

/// Declaration of biscuit-auth's signed third-party block.
#[verifier::external_type_specification]
#[verifier::external_body]
pub struct ExThirdPartyBlock(ThirdPartyBlock);

/// A token: the datalog source of each block, as `print_block_source` gives
/// it (`None` for a block that it cannot print, such as one of a datalog
/// version this library does not read), the root public key that verifies it, its root key identifier,
/// for each block in order its revocation identifier and the external key
/// that signed it if it is a third-party block, whether it is sealed
/// (no block can be appended to it), and whether the key it holds to sign
/// its next block is an Ed25519 key (it is for every token built or
/// extended here).
pub struct TokenModel {
    pub blocks: Seq<Option<Seq<char>>>,
    pub root_key: KeyModel,
    pub root_key_id: Option<u32>,
    pub revocation_ids: Seq<Seq<u8>>,
    pub external_keys: Seq<Option<KeyModel>>,
    pub sealed: bool,
    pub next_key_ed25519: bool,
}

/// A token whose signatures were not checked: its root key identifier,
/// for each block in order its revocation identifier, whether it is sealed,
/// and whether the key it holds to sign its next block is an Ed25519 key.
pub struct UnverifiedModel {
    pub root_key_id: Option<u32>,
    pub revocation_ids: Seq<Seq<u8>>,
    pub sealed: bool,
    pub next_key_ed25519: bool,
}

/// The text of the line that starts a token builder's text.
pub open spec fn root_key_line(id: Option<u32>) -> Seq<char> {
    match id {
        None => "// no root key id set\n"@,
        Some(n) => "// root key id: "@ + decimal(n as nat) + "\n"@,
    }
}

/// The decimal digits of a number.
pub open spec fn decimal(n: nat) -> Seq<char>
    decreases n,
{
    if n < 10 {
        seq![((n + 48) as char)]
    } else {
        decimal(n / 10) + seq![((n % 10 + 48) as char)]
    }
}

/// What a biscuit token builder holds: the authority block's statements.
pub uninterp spec fn biscuit_builder_contents(b: BiscuitBuilder) -> BlockContents;

/// The root key identifier a biscuit token builder holds.
pub uninterp spec fn biscuit_builder_root_key_id(b: BiscuitBuilder) -> Option<u32>;

/// What a verified biscuit token holds.
pub uninterp spec fn token_model(b: Biscuit) -> TokenModel;

/// What an unverified biscuit token holds.
pub uninterp spec fn unverified_model(u: UnverifiedBiscuit) -> UnverifiedModel;

/// The public key that signed a third-party block.
pub uninterp spec fn third_party_block_key(t: ThirdPartyBlock) -> KeyModel;

/// The text `Biscuit::print` gives of a token.
pub uninterp spec fn token_text(b: Biscuit) -> Seq<char>;

/// The datalog text `UnverifiedBiscuit::print_block_source` gives of a
/// token's block, if it gives one.
pub uninterp spec fn unverified_block_source_text(u: UnverifiedBiscuit, index: usize) -> Option<Seq<char>>;

/// The token that `Biscuit::from` reads from bytes with a root key, if any.
pub uninterp spec fn token_from_bytes(data: Seq<u8>, root: KeyModel) -> Option<TokenModel>;

/// The token that `Biscuit::from_base64` reads from text with a root key, if any.
pub uninterp spec fn token_from_base64(data: Seq<char>, root: KeyModel) -> Option<TokenModel>;

/// The bytes `Biscuit::to_vec` serializes a token into.
pub uninterp spec fn token_bytes(b: Biscuit) -> Seq<u8>;

/// The token that `UnverifiedBiscuit::from` reads from bytes, if any.
pub uninterp spec fn unverified_from_bytes(data: Seq<u8>) -> Option<UnverifiedModel>;

/// The token that `UnverifiedBiscuit::from_base64` reads from text, if any.
pub uninterp spec fn unverified_from_base64(data: Seq<char>) -> Option<UnverifiedModel>;

/// The datalog source of the authority block built from a biscuit token
/// builder.
pub uninterp spec fn biscuit_builder_source(b: BiscuitBuilder) -> Seq<char>;

/// Whether `ThirdPartyRequest::create_block` builds, encodes and signs the
/// block with the key; this depends on these arguments alone.
pub uninterp spec fn third_party_block_created(
    req: ThirdPartyRequest,
    k: PrivateKey,
    b: BlockBuilder,
) -> bool;

/// The datalog source of the block a signed third-party block carries.
pub uninterp spec fn third_party_block_source(t: ThirdPartyBlock) -> Seq<char>;

/// The signature of the last block of the token a third-party request was
/// made for.
pub uninterp spec fn third_party_request_signature(q: ThirdPartyRequest) -> Seq<u8>;

/// The signature of the previous block that a signed third-party block was
/// signed against.
pub uninterp spec fn third_party_block_previous(t: ThirdPartyBlock) -> Seq<u8>;

/// Whether a signed third-party block is sound: its payload decodes as a
/// block, its public key reads back, and its signature checks under that
/// key over its payload and the previous signature it was signed against.
pub uninterp spec fn third_party_block_verifies(t: ThirdPartyBlock) -> bool;

/// Whether the signatures of an unverified token check against a root key.
pub uninterp spec fn unverified_signed_by(u: UnverifiedBiscuit, root: KeyModel) -> bool;

/// The token after one more block, of the given source: the same root, the
/// earlier blocks unchanged, one more revocation identifier and external
/// key, and still open to more blocks, with an Ed25519 key to sign the next.
pub open spec fn one_more_block(
    before: TokenModel,
    after: TokenModel,
    external: Option<KeyModel>,
    source: Seq<char>,
) -> bool {
    &&& !after.sealed
    &&& after.next_key_ed25519
    &&& after.blocks == before.blocks.push(Some(source))
    &&& after.root_key == before.root_key
    &&& after.root_key_id == before.root_key_id
    &&& after.revocation_ids.len() == before.revocation_ids.len() + 1
    &&& after.revocation_ids.take(before.revocation_ids.len() as int) == before.revocation_ids
    &&& after.external_keys == before.external_keys.push(external)
}

/// `BiscuitBuilder::new`: no statements and no root key identifier.
#[verifier::external_body]
fn biscuit_builder_new() -> (r: BiscuitBuilder)
    ensures
        biscuit_builder_contents(r) == empty_contents(),
        biscuit_builder_root_key_id(r) is None,
{
    BiscuitBuilder::new()
}

/// `BiscuitBuilder::clone`.
#[verifier::external_body]
fn biscuit_builder_clone(b: &BiscuitBuilder) -> (r: BiscuitBuilder)
    ensures
        r == *b,
{
    b.clone()
}

/// `BiscuitBuilder::fact`: adds the fact to the authority block, refused
/// when one of its parameters has no value.
#[verifier::external_body]
fn biscuit_builder_fact(b: BiscuitBuilder, f: biscuit_auth::builder::Fact) -> (r: Result<
    BiscuitBuilder,
    biscuit_auth::error::Token,
>)
    ensures
        r is Ok <==> all_bound(fact_model(f).params),
        r matches Ok(n) ==> biscuit_builder_contents(n) == (BlockContents {
            facts: biscuit_builder_contents(b).facts.push(fact_text(f)),
            ..biscuit_builder_contents(b)
        }) && biscuit_builder_root_key_id(n) == biscuit_builder_root_key_id(b),
{
    b.fact(f)
}

/// `BiscuitBuilder::rule`: adds the rule to the authority block, refused
/// when one of its parameters or scope parameters has no value.
#[verifier::external_body]
fn biscuit_builder_rule(b: BiscuitBuilder, x: biscuit_auth::builder::Rule) -> (r: Result<
    BiscuitBuilder,
    biscuit_auth::error::Token,
>)
    ensures
        r is Ok <==> (all_bound(rule_params(x).terms) && all_bound(rule_params(x).scopes)),
        r matches Ok(n) ==> biscuit_builder_contents(n) == (BlockContents {
            rules: biscuit_builder_contents(b).rules.push(rule_text(x)),
            ..biscuit_builder_contents(b)
        }) && biscuit_builder_root_key_id(n) == biscuit_builder_root_key_id(b),
{
    b.rule(x)
}

/// `BiscuitBuilder::check`: adds the check to the authority block, refused
/// when one of its parameters or scope parameters has no value.
#[verifier::external_body]
fn biscuit_builder_check(b: BiscuitBuilder, x: biscuit_auth::builder::Check) -> (r: Result<
    BiscuitBuilder,
    biscuit_auth::error::Token,
>)
    ensures
        r is Ok <==> (all_bound(check_params(x).terms) && all_bound(check_params(x).scopes)),
        r matches Ok(n) ==> biscuit_builder_contents(n) == (BlockContents {
            checks: biscuit_builder_contents(b).checks.push(check_text(x)),
            ..biscuit_builder_contents(b)
        }) && biscuit_builder_root_key_id(n) == biscuit_builder_root_key_id(b),
{
    b.check(x)
}

/// `BiscuitBuilder::code_with_params`, with the tables collected from the
/// pairs, whose names are distinct: the authority block takes the code's statements when the code is
/// accepted, as a block builder would.
#[verifier::external_body]
fn biscuit_builder_code(
    b: BiscuitBuilder,
    source: &str,
    params: Vec<(String, biscuit_auth::builder::Term)>,
    scopes: Vec<(String, PublicKey)>,
) -> (r: Result<BiscuitBuilder, biscuit_auth::error::Token>)
    requires
        str_keys_distinct(params@),
        str_keys_distinct(scopes@),
    ensures
        match block_code(source@, term_pairs_map(params@), key_pairs_map(scopes@)) {
            Some(c) => r matches Ok(n) && biscuit_builder_contents(n) == append_contents(
                biscuit_builder_contents(b),
                c,
            ) && biscuit_builder_root_key_id(n) == biscuit_builder_root_key_id(b),
            None => r is Err,
        },
{
    b.code_with_params(source, params.into_iter().collect(), scopes.into_iter().collect())
}

/// `BiscuitBuilder::merge`: appends a block builder's statements.
#[verifier::external_body]
fn biscuit_builder_merge(b: BiscuitBuilder, other: BlockBuilder) -> (r: BiscuitBuilder)
    ensures
        biscuit_builder_contents(r) == append_contents(biscuit_builder_contents(b), block_contents(other)),
        biscuit_builder_root_key_id(r) == biscuit_builder_root_key_id(b),
{
    b.merge(other)
}

/// `BiscuitBuilder::root_key_id`: sets the root key identifier.
#[verifier::external_body]
fn biscuit_builder_set_root_key_id(b: BiscuitBuilder, id: u32) -> (r: BiscuitBuilder)
    ensures
        biscuit_builder_contents(r) == biscuit_builder_contents(b),
        biscuit_builder_root_key_id(r) == Some(id),
{
    b.root_key_id(id)
}

/// `BiscuitBuilder::build`: a token of one block, built from the builder's
/// statements and signed by the key pair, carrying the builder's root key
/// identifier. The block's symbols are new to the table it is built
/// against, its encoding into a vector does not fail, and an Ed25519
/// signature does not fail, so with an Ed25519 root key it is always built.
#[verifier::external_body]
fn biscuit_builder_build(b: BiscuitBuilder, root: &KeyPair) -> (r: Result<Biscuit, biscuit_auth::error::Token>)
    ensures
        key_pair_model(*root).algorithm == PyAlgorithm::Ed25519 ==> r is Ok,
        r matches Ok(t) ==> token_model(t).root_key == public_key_of(key_pair_model(*root))
            && token_model(t).root_key_id == biscuit_builder_root_key_id(b)
            && token_model(t).revocation_ids.len() == 1
            && token_model(t).external_keys == seq![None::<KeyModel>] && !token_model(t).sealed
            && token_model(t).next_key_ed25519
            && token_model(t).blocks == seq![Some(biscuit_builder_source(b))],
{
    b.build(root)
}

/// `BiscuitBuilder`'s `Display`: a line naming the root key identifier,
/// then the authority block's statements.
#[verifier::external_body]
fn biscuit_builder_display(b: &BiscuitBuilder) -> (r: String)
    ensures
        r@ == root_key_line(biscuit_builder_root_key_id(*b)) + contents_text(
            biscuit_builder_contents(*b),
        ),
{
    b.to_string()
}

/// `Biscuit::from` with a root public key.
#[verifier::external_body]
fn biscuit_from_bytes(data: &[u8], root: PublicKey) -> (r: Result<Biscuit, biscuit_auth::error::Token>)
    ensures
        r is Ok <==> token_from_bytes(data@, public_key_model(root)) is Some,
        r matches Ok(t) ==> token_from_bytes(data@, public_key_model(root)) == Some(token_model(t))
            && token_model(t).root_key == public_key_model(root),
{
    Biscuit::from(data, root)
}

/// `Biscuit::from_base64` with a root public key. It decodes the text as
/// URL-safe base64 with padding and reads the bytes as `Biscuit::from`
/// does, so the base64 text of some bytes reads as those bytes do.
#[verifier::external_body]
fn biscuit_from_base64(data: &str, root: PublicKey) -> (r: Result<Biscuit, biscuit_auth::error::Token>)
    ensures
        r is Ok <==> token_from_base64(data@, public_key_model(root)) is Some,
        r matches Ok(t) ==> token_from_base64(data@, public_key_model(root)) == Some(token_model(t))
            && token_model(t).root_key == public_key_model(root),
        forall|v: Seq<u8>| #[trigger] url_base64(v) == data@ ==> (r is Ok <==> token_from_bytes(v, public_key_model(root)) is Some),
        r matches Ok(t) ==> forall|v: Seq<u8>|
            #[trigger] url_base64(v) == data@ ==> token_from_bytes(v, public_key_model(root)) == Some(token_model(t)),
{
    Biscuit::from_base64(data, root)
}

/// `Biscuit::to_vec`: the serialized token, which `Biscuit::from` reads back
/// with the token's root key as the same token, and which
/// `UnverifiedBiscuit::from` reads with the same root key identifier and
/// revocation identifiers (the same container, its signatures unchecked).
/// Encoding into a growable vector does not fail.
#[verifier::external_body]
fn biscuit_to_bytes(b: &Biscuit) -> (r: Result<Vec<u8>, biscuit_auth::error::Token>)
    ensures
        r is Ok,
        r matches Ok(v) ==> v@ == token_bytes(*b),
        r matches Ok(v) ==> token_from_bytes(v@, token_model(*b).root_key) == Some(token_model(*b)),
        r matches Ok(v) ==> unverified_from_bytes(v@) == Some(
            UnverifiedModel {
                root_key_id: token_model(*b).root_key_id,
                revocation_ids: token_model(*b).revocation_ids,
                sealed: token_model(*b).sealed,
                next_key_ed25519: token_model(*b).next_key_ed25519,
            },
        ),
{
    b.to_vec()
}

/// `Biscuit::to_base64`: the bytes of `Biscuit::to_vec` in URL-safe base64
/// with padding, which `Biscuit::from_base64` reads back with the token's
/// root key as the same token and `UnverifiedBiscuit::from_base64` reads
/// with the same root key identifier and revocation identifiers. Encoding
/// into a growable vector does not fail.
#[verifier::external_body]
fn biscuit_to_base64(b: &Biscuit) -> (r: Result<String, biscuit_auth::error::Token>)
    ensures
        r is Ok,
        r matches Ok(s) ==> s@ == url_base64(token_bytes(*b)),
        r matches Ok(s) ==> token_from_base64(s@, token_model(*b).root_key) == Some(token_model(*b)),
        r matches Ok(s) ==> unverified_from_base64(s@) == Some(
            UnverifiedModel {
                root_key_id: token_model(*b).root_key_id,
                revocation_ids: token_model(*b).revocation_ids,
                sealed: token_model(*b).sealed,
                next_key_ed25519: token_model(*b).next_key_ed25519,
            },
        ),
{
    b.to_base64()
}

/// `Biscuit::block_count`: one block per revocation identifier and per
/// external key entry.
#[verifier::external_body]
fn biscuit_block_count(b: &Biscuit) -> (r: usize)
    ensures
        r == token_model(*b).revocation_ids.len(),
        r == token_model(*b).external_keys.len(),
        r == token_model(*b).blocks.len(),
{
    b.block_count()
}

/// `Biscuit::print_block_source`: the source of an existing block, which
/// fails only where the block cannot be printed; refused for an index more
/// than one past the last block. For the index just past the last block the source
/// indexes its block list out of bounds and panics, so that index is left
/// out.
#[verifier::external_body]
fn biscuit_block_source(b: &Biscuit, index: usize) -> (r: Result<String, biscuit_auth::error::Token>)
    requires
        index != token_model(*b).revocation_ids.len(),
    ensures
        index < token_model(*b).blocks.len() ==> (r is Ok <==> token_model(*b).blocks[index as int] is Some),
        r matches Ok(s) ==> token_model(*b).blocks[index as int] == Some(s@),
        index > token_model(*b).blocks.len() ==> r is Err,
{
    b.print_block_source(index)
}

/// `Biscuit::append`: a new token with one more first-party block; a sealed
/// token has no key to sign one with and is refused. The block is built
/// against the token's symbol table, so its symbols and keys are new to it;
/// its encoding into a vector does not fail, nor does signing with an
/// Ed25519 next key: an open token with such a key always takes the block,
/// whatever its number of blocks.
#[verifier::external_body]
fn biscuit_append(b: &Biscuit, block: BlockBuilder) -> (r: Result<Biscuit, biscuit_auth::error::Token>)
    ensures
        token_model(*b).sealed ==> r is Err,
        (!token_model(*b).sealed && token_model(*b).next_key_ed25519) ==> r is Ok,
        r matches Ok(t) ==> one_more_block(token_model(*b), token_model(t), None, block_builder_source(block)),
{
    b.append(block)
}

/// `Biscuit::append_third_party`: a new token with one more block signed by
/// the external key, refused unless the block was signed with that key, and
/// refused for a sealed token. It checks the block's key against the key
/// handed in, its signature over its payload and this token's last
/// signature, decodes the payload, and signs the new block with the
/// token's next key: so a sound block signed against this token's last
/// signature, handed in with its own key, is appended to an open token
/// whose next key is an Ed25519 key (whose signing does not fail).
#[verifier::external_body]
fn biscuit_append_third_party(b: &Biscuit, key: PublicKey, block: ThirdPartyBlock) -> (r: Result<
    Biscuit,
    biscuit_auth::error::Token,
>)
    ensures
        token_model(*b).sealed ==> r is Err,
        (!token_model(*b).sealed && token_model(*b).next_key_ed25519 && public_key_model(key)
            == third_party_block_key(block) && third_party_block_verifies(block)
            && third_party_block_previous(block) == token_model(*b).revocation_ids.last()) ==> r is Ok,
        r is Ok ==> public_key_model(key) == third_party_block_key(block),
        r matches Ok(t) ==> one_more_block(
            token_model(*b),
            token_model(t),
            Some(public_key_model(key)),
            third_party_block_source(block),
        ),
{
    b.append_third_party(key, block)
}

/// `Biscuit::third_party_request`: refused exactly for a sealed token. The
/// request holds the last block's signature, the last revocation
/// identifier.
#[verifier::external_body]
fn biscuit_third_party_request(b: &Biscuit) -> (r: Result<ThirdPartyRequest, biscuit_auth::error::Token>)
    ensures
        r is Ok <==> !token_model(*b).sealed,
        r matches Ok(q) ==> third_party_request_signature(q) == token_model(*b).revocation_ids.last(),
{
    b.third_party_request()
}

/// `Biscuit::revocation_identifiers`: the signature of each block, in
/// order. The signatures of a verified token checked, so none is empty.
#[verifier::external_body]
fn biscuit_revocation_ids(b: &Biscuit) -> (r: Vec<Vec<u8>>)
    ensures
        r@.len() == token_model(*b).revocation_ids.len(),
        forall|i: int| 0 <= i < r@.len() ==> (#[trigger] r@[i])@ == token_model(*b).revocation_ids[i],
        forall|i: int| 0 <= i < r@.len() ==> (#[trigger] r@[i])@.len() > 0,
{
    b.revocation_identifiers()
}

/// `Biscuit::block_external_key`: the external key of a block, refused
/// exactly for an index past the last block.
#[verifier::external_body]
fn biscuit_block_external_key(b: &Biscuit, index: usize) -> (r: Result<Option<PublicKey>, biscuit_auth::error::Token>)
    ensures
        r is Ok <==> index < token_model(*b).external_keys.len(),
        r matches Ok(k) ==> match k {
            Some(k) => token_model(*b).external_keys[index as int] == Some(public_key_model(k)),
            None => token_model(*b).external_keys[index as int] is None,
        },
{
    b.block_external_key(index)
}

/// `Biscuit::print`.
#[verifier::external_body]
fn biscuit_print(b: &Biscuit) -> (r: String)
    ensures
        r@ == token_text(*b),
{
    b.print()
}

/// `UnverifiedBiscuit::from`.
#[verifier::external_body]
fn unverified_from_bytes_call(data: &[u8]) -> (r: Result<UnverifiedBiscuit, biscuit_auth::error::Token>)
    ensures
        r is Ok <==> unverified_from_bytes(data@) is Some,
        r matches Ok(u) ==> unverified_from_bytes(data@) == Some(unverified_model(u)),
{
    UnverifiedBiscuit::from(data)
}

/// `UnverifiedBiscuit::from_base64`. It decodes the text as URL-safe
/// base64 with padding and reads the bytes as `UnverifiedBiscuit::from`
/// does, so the base64 text of some bytes reads as those bytes do.
#[verifier::external_body]
fn unverified_from_base64_call(data: &str) -> (r: Result<UnverifiedBiscuit, biscuit_auth::error::Token>)
    ensures
        r is Ok <==> unverified_from_base64(data@) is Some,
        r matches Ok(u) ==> unverified_from_base64(data@) == Some(unverified_model(u)),
        forall|v: Seq<u8>| #[trigger] url_base64(v) == data@ ==> (r is Ok <==> unverified_from_bytes(v) is Some),
        r matches Ok(u) ==> forall|v: Seq<u8>|
            #[trigger] url_base64(v) == data@ ==> unverified_from_bytes(v) == Some(unverified_model(u)),
{
    UnverifiedBiscuit::from_base64(data)
}

/// `UnverifiedBiscuit::root_key_id`.
#[verifier::external_body]
fn unverified_root_key_id(u: &UnverifiedBiscuit) -> (r: Option<u32>)
    ensures
        r == unverified_model(*u).root_key_id,
{
    u.root_key_id()
}

/// `UnverifiedBiscuit::block_count`: one block per revocation identifier.
#[verifier::external_body]
fn unverified_block_count(u: &UnverifiedBiscuit) -> (r: usize)
    ensures
        r == unverified_model(*u).revocation_ids.len(),
{
    u.block_count()
}

/// `UnverifiedBiscuit::print_block_source`: refused for an index more than
/// one past the last block; the index just past the last block panics in
/// the source and is left out.
#[verifier::external_body]
fn unverified_block_source(u: &UnverifiedBiscuit, index: usize) -> (r: Result<String, biscuit_auth::error::Token>)
    requires
        index != unverified_model(*u).revocation_ids.len(),
    ensures
        r is Ok <==> unverified_block_source_text(*u, index) is Some,
        r matches Ok(s) ==> Some(s@) == unverified_block_source_text(*u, index),
        index > unverified_model(*u).revocation_ids.len() ==> r is Err,
{
    u.print_block_source(index)
}

/// `UnverifiedBiscuit::append`: one more block, the earlier ones unchanged,
/// signed with the token's next key and carrying a fresh Ed25519 key for
/// the one after. A sealed token has no next key and is refused; as for a
/// verified token, an open token whose next key is an Ed25519 key always
/// takes the block (its symbols are new to the token's table, encoding
/// into a vector and Ed25519 signing do not fail), whatever its root key
/// identifier.
#[verifier::external_body]
fn unverified_append(u: &UnverifiedBiscuit, block: BlockBuilder) -> (r: Result<UnverifiedBiscuit, biscuit_auth::error::Token>)
    ensures
        unverified_model(*u).sealed ==> r is Err,
        (!unverified_model(*u).sealed && unverified_model(*u).next_key_ed25519) ==> r is Ok,
        r matches Ok(n) ==> !unverified_model(n).sealed && unverified_model(n).next_key_ed25519,
        r matches Ok(n) ==> unverified_model(n).root_key_id == unverified_model(*u).root_key_id
            && unverified_model(n).revocation_ids.len() == unverified_model(*u).revocation_ids.len() + 1
            && unverified_model(n).revocation_ids.take(unverified_model(*u).revocation_ids.len() as int)
                == unverified_model(*u).revocation_ids,
{
    u.append(block)
}

/// `UnverifiedBiscuit::revocation_identifiers`.
#[verifier::external_body]
fn unverified_revocation_ids(u: &UnverifiedBiscuit) -> (r: Vec<Vec<u8>>)
    ensures
        r@.len() == unverified_model(*u).revocation_ids.len(),
        forall|i: int| 0 <= i < r@.len() ==> (#[trigger] r@[i])@ == unverified_model(*u).revocation_ids[i],
{
    u.revocation_identifiers()
}

/// `UnverifiedBiscuit::verify` on a copy, with a root public key: the
/// verified token has the same blocks, root key identifier and next key
/// (the same container), and that root key.
#[verifier::external_body]
fn unverified_verify(u: &UnverifiedBiscuit, root: PublicKey) -> (r: Result<Biscuit, biscuit_auth::error::Format>)
    ensures
        r is Ok <==> unverified_signed_by(*u, public_key_model(root)),
        r matches Ok(t) ==> token_model(t).root_key == public_key_model(root)
            && token_model(t).root_key_id == unverified_model(*u).root_key_id
            && token_model(t).revocation_ids == unverified_model(*u).revocation_ids
            && token_model(t).sealed == unverified_model(*u).sealed
            && token_model(t).next_key_ed25519 == unverified_model(*u).next_key_ed25519,
{
    u.clone().verify(root)
}

/// `ThirdPartyRequest::create_block`: a block built from the block builder,
/// encoded, and signed with the private key over the encoding and the
/// request's previous signature; it carries the key's public key and that
/// signature, so its payload decodes and its signature checks.
#[verifier::external_body]
fn third_party_create_block(req: ThirdPartyRequest, k: &PrivateKey, block: BlockBuilder) -> (r: Result<
    ThirdPartyBlock,
    biscuit_auth::error::Token,
>)
    ensures
        r is Ok <==> third_party_block_created(req, *k, block),
        r matches Ok(t) ==> third_party_block_key(t) == public_key_of(private_key_model(*k)),
        r matches Ok(t) ==> third_party_block_source(t) == block_builder_source(block),
        r matches Ok(t) ==> third_party_block_previous(t) == third_party_request_signature(req)
            && third_party_block_verifies(t),
{
    req.create_block(k, block)
}

/// `ThirdPartyBlock::clone`.
#[verifier::external_body]
fn third_party_block_clone(t: &ThirdPartyBlock) -> (r: ThirdPartyBlock)
    ensures
        r == *t,
{
    t.clone()
}

/// A token builder: the authority block's statements and the root key
/// identifier.
pub struct BuilderModel {
    pub contents: BlockContents,
    pub root_key_id: Option<u32>,
}

/// Builder class allowing to create a token from a datalog block. It is
/// consumed (holds no builder) once an operation that takes it has failed.
pub struct PyBiscuitBuilder(pub(crate) Option<BiscuitBuilder>);

impl View for PyBiscuitBuilder {
    type V = Option<BuilderModel>;

    closed spec fn view(&self) -> Option<BuilderModel> {
        match self.0 {
            Some(b) => Some(
                BuilderModel {
                    contents: biscuit_builder_contents(b),
                    root_key_id: biscuit_builder_root_key_id(b),
                },
            ),
            None => None,
        }
    }
}

impl PyBiscuitBuilder {
    /// The datalog source of an authority block built from this builder.
    pub closed spec fn source(&self) -> Seq<char> {
        match self.0 {
            Some(b) => biscuit_builder_source(b),
            None => Seq::empty(),
        }
    }

    /// Whether the builder has been consumed.
    pub fn is_consumed(&self) -> (r: bool)
        ensures
            r == (self@ is None),
    {
        self.0.is_none()
    }

    /// A builder with the statements of the datalog code, if any is given,
    /// with its parameter values and public keys, and no root key identifier.
    pub fn new(
        source: Option<String>,
        parameters: Option<Vec<(String, PyTerm)>>,
        scope_parameters: Option<Vec<(String, PyPublicKey)>>,
    ) -> (r: Result<PyBiscuitBuilder, PyError>)
        requires
            str_keys_distinct(given(parameters)),
            values_well_formed(given(parameters)),
            str_keys_distinct(given(scope_parameters)),
        ensures
            source is None ==> (r matches Ok(b) && b@ == Some(
                BuilderModel { contents: empty_contents(), root_key_id: None },
            )),
            source matches Some(s) ==> match code_outcome(
                empty_contents(),
                s@,
                given(parameters),
                given(scope_parameters),
            ) {
                Ok(c) => r matches Ok(b) && b@ == Some(BuilderModel { contents: c, root_key_id: None }),
                Err(k) => r matches Err(e) && fails_with(e, k),
            },
    {
        let mut builder = PyBiscuitBuilder(Some(biscuit_builder_new()));
        match source {
            Some(s) => {
                builder.add_code(s.as_str(), parameters, scope_parameters)?;
            },
            None => {},
        }
        Ok(builder)
    }

    /// Builds a token whose authority block is signed with the private key;
    /// the builder is kept. The token is verified by the key's public key
    /// and carries the builder's root key identifier.
    pub fn build(&self, root: &PyPrivateKey) -> (r: Result<PyBiscuit, PyError>)
        requires
            self@ is Some,
        ensures
            root@.algorithm == PyAlgorithm::Ed25519 ==> r is Ok,
            r matches Ok(t) ==> t@.root_key == public_key_of(root@) && t@.root_key_id
                == self@->0.root_key_id && t@.revocation_ids.len() == 1 && t@.external_keys == seq![
                None::<KeyModel>] && !t@.sealed && t@.next_key_ed25519 && t@.blocks == seq![Some(self.source())],
            r matches Err(e) ==> reported_by_biscuit(e, ErrorKind::BiscuitBuild),
    {
        let keypair = key_pair_from(root.key());
        let b = match &self.0 {
            Some(b) => biscuit_builder_clone(b),
            None => biscuit_builder_new(),
        };
        match biscuit_builder_build(b, &keypair) {
            Ok(t) => Ok(PyBiscuit(t)),
            Err(e) => Err(PyError::from_token(ErrorKind::BiscuitBuild, &e)),
        }
    }

    /// Adds the statements of datalog code, with its parameter values and
    /// public keys. A value without a term is refused with a `ValueError`
    /// before the builder is touched; code that is refused gives a
    /// `DataLogError` and consumes the builder.
    pub fn add_code(
        &mut self,
        source: &str,
        parameters: Option<Vec<(String, PyTerm)>>,
        scope_parameters: Option<Vec<(String, PyPublicKey)>>,
    ) -> (r: Result<(), PyError>)
        requires
            old(self)@ is Some || !all_convert(given(parameters)),
            str_keys_distinct(given(parameters)),
            values_well_formed(given(parameters)),
            str_keys_distinct(given(scope_parameters)),
        ensures
            !all_convert(given(parameters)) ==> final(self)@ == old(self)@,
            match code_outcome(
                old(self)@->0.contents,
                source@,
                given(parameters),
                given(scope_parameters),
            ) {
                Ok(c) => r is Ok && final(self)@ == Some(
                    BuilderModel { contents: c, root_key_id: old(self)@->0.root_key_id },
                ),
                Err(k) => r matches Err(e) && fails_with(e, k) && (k == ErrorKind::DataLog
                    ==> final(self)@ is None),
            },
    {
        let params = convert_params(&parameters)?;
        let scopes = convert_scope_params(&scope_parameters);
        let b = self.0.take().unwrap();
        match biscuit_builder_code(b, source, params, scopes) {
            Ok(n) => {
                self.0 = Some(n);
                Ok(())
            },
            Err(e) => Err(PyError::from_token(ErrorKind::DataLog, &e)),
        }
    }

    /// Adds a fact; a fact with a parameter left without value is refused
    /// with a `DataLogError` and consumes the builder.
    pub fn add_fact(&mut self, fact: &PyFact) -> (r: Result<(), PyError>)
        requires
            old(self)@ is Some,
        ensures
            r is Ok <==> all_bound(fact@.params),
            r is Ok ==> final(self)@ == Some(
                BuilderModel {
                    contents: BlockContents {
                        facts: old(self)@->0.contents.facts.push(fact.text()),
                        ..old(self)@->0.contents
                    },
                    ..old(self)@->0
                },
            ),
            r matches Err(e) ==> e.kind == ErrorKind::DataLog && final(self)@ is None,
    {
        let b = self.0.take().unwrap();
        match biscuit_builder_fact(b, fact.fact()) {
            Ok(n) => {
                self.0 = Some(n);
                Ok(())
            },
            Err(e) => Err(PyError::from_token(ErrorKind::DataLog, &e)),
        }
    }

    /// Adds a rule; a rule with a parameter left without value is refused
    /// with a `DataLogError` and consumes the builder.
    pub fn add_rule(&mut self, rule: &PyRule) -> (r: Result<(), PyError>)
        requires
            old(self)@ is Some,
        ensures
            r is Ok <==> all_bound(rule@.terms) && all_bound(rule@.scopes),
            r is Ok ==> final(self)@ == Some(
                BuilderModel {
                    contents: BlockContents {
                        rules: old(self)@->0.contents.rules.push(rule.text()),
                        ..old(self)@->0.contents
                    },
                    ..old(self)@->0
                },
            ),
            r matches Err(e) ==> e.kind == ErrorKind::DataLog && final(self)@ is None,
    {
        let b = self.0.take().unwrap();
        match biscuit_builder_rule(b, rule.rule()) {
            Ok(n) => {
                self.0 = Some(n);
                Ok(())
            },
            Err(e) => Err(PyError::from_token(ErrorKind::DataLog, &e)),
        }
    }

    /// Adds a check; a check with a parameter left without value is refused
    /// with a `DataLogError` and consumes the builder.
    pub fn add_check(&mut self, check: &PyCheck) -> (r: Result<(), PyError>)
        requires
            old(self)@ is Some,
        ensures
            r is Ok <==> all_bound(check@.terms) && all_bound(check@.scopes),
            r is Ok ==> final(self)@ == Some(
                BuilderModel {
                    contents: BlockContents {
                        checks: old(self)@->0.contents.checks.push(check.text()),
                        ..old(self)@->0.contents
                    },
                    ..old(self)@->0
                },
            ),
            r matches Err(e) ==> e.kind == ErrorKind::DataLog && final(self)@ is None,
    {
        let b = self.0.take().unwrap();
        match biscuit_builder_check(b, check.check()) {
            Ok(n) => {
                self.0 = Some(n);
                Ok(())
            },
            Err(e) => Err(PyError::from_token(ErrorKind::DataLog, &e)),
        }
    }

    /// Appends the statements of a block builder, which is not modified.
    pub fn merge(&mut self, builder: &PyBlockBuilder) -> (r: Result<(), PyError>)
        requires
            old(self)@ is Some,
            builder@ is Some,
        ensures
            r is Ok,
            final(self)@ == Some(
                BuilderModel {
                    contents: append_contents(old(self)@->0.contents, builder@->0),
                    ..old(self)@->0
                },
            ),
    {
        let other = builder.builder();
        let b = self.0.take().unwrap();
        self.0 = Some(biscuit_builder_merge(b, other));
        Ok(())
    }

    /// Sets the root key identifier, keeping the statements.
    pub fn set_root_key_id(&mut self, root_key_id: u32) -> (r: Result<(), PyError>)
        requires
            old(self)@ is Some,
        ensures
            r is Ok,
            final(self)@ == Some(BuilderModel { root_key_id: Some(root_key_id), ..old(self)@->0 }),
    {
        let b = self.0.take().unwrap();
        self.0 = Some(biscuit_builder_set_root_key_id(b, root_key_id));
        Ok(())
    }

    /// The builder's text: a line naming the root key identifier and the
    /// authority block's statements, or a notice that it was consumed.
    pub fn repr(&self) -> (r: String)
        ensures
            self@ matches Some(m) ==> r@ == root_key_line(m.root_key_id) + contents_text(m.contents),
            self@ is None ==> r@ == "_ BiscuitBuilder already consumed_"@,
    {
        match &self.0 {
            Some(b) => biscuit_builder_display(b),
            None => "_ BiscuitBuilder already consumed_".to_owned(),
        }
    }
}

/// A token that has been parsed and cryptographically verified.
pub struct PyBiscuit(pub(crate) Biscuit);

impl View for PyBiscuit {
    type V = TokenModel;

    closed spec fn view(&self) -> TokenModel {
        token_model(self.0)
    }
}

impl PyBiscuit {
    /// The biscuit token.
    pub(crate) fn token(&self) -> (r: &Biscuit)
        ensures
            token_model(*r) == self@,
            *r == self.inner(),
    {
        &self.0
    }

    /// The biscuit token.
    pub closed spec fn inner(&self) -> Biscuit {
        self.0
    }

    /// An empty token builder.
    pub fn builder() -> (r: Result<PyBiscuitBuilder, PyError>)
        ensures
            r matches Ok(b) && b@ == Some(BuilderModel { contents: empty_contents(), root_key_id: None }),
    {
        PyBiscuitBuilder::new(None, None, None)
    }

    /// Reads a token from bytes and checks its signatures with the root
    /// public key; a failure is a `BiscuitValidationError`.
    pub fn from_bytes(data: &[u8], root: &PyPublicKey) -> (r: Result<PyBiscuit, PyError>)
        ensures
            r is Ok <==> token_from_bytes(data@, root@) is Some,
            r matches Ok(t) ==> token_from_bytes(data@, root@) == Some(t@) && t@.root_key == root@,
            r matches Err(e) ==> e.kind == ErrorKind::BiscuitValidation,
    {
        match biscuit_from_bytes(data, root.key()) {
            Ok(b) => Ok(PyBiscuit(b)),
            Err(e) => Err(PyError::from_token(ErrorKind::BiscuitValidation, &e)),
        }
    }

    /// Reads a token from URL-safe base64 and checks its signatures with the
    /// root public key; a failure is a `BiscuitValidationError`.
    pub fn from_base64(data: &str, root: &PyPublicKey) -> (r: Result<PyBiscuit, PyError>)
        ensures
            r is Ok <==> token_from_base64(data@, root@) is Some,
            r matches Ok(t) ==> token_from_base64(data@, root@) == Some(t@) && t@.root_key == root@,
            forall|v: Seq<u8>| #[trigger] url_base64(v) == data@ ==> (r is Ok <==> token_from_bytes(v, root@) is Some),
            r matches Ok(t) ==> forall|v: Seq<u8>|
                #[trigger] url_base64(v) == data@ ==> token_from_bytes(v, root@) == Some(t@),
            r matches Err(e) ==> e.kind == ErrorKind::BiscuitValidation,
    {
        match biscuit_from_base64(data, root.key()) {
            Ok(b) => Ok(PyBiscuit(b)),
            Err(e) => Err(PyError::from_token(ErrorKind::BiscuitValidation, &e)),
        }
    }

    /// Serializes the token; `from_bytes` with its root key reads the bytes
    /// back as the same token, and reading them unverified gives its root
    /// key identifier and revocation identifiers.
    pub fn to_bytes(&self) -> (r: Result<Vec<u8>, PyError>)
        ensures
            r is Ok,
            r matches Ok(v) ==> v@ == self.bytes(),
            r matches Ok(v) ==> token_from_bytes(v@, self@.root_key) == Some(self@),
            r matches Ok(v) ==> unverified_from_bytes(v@) == Some(
                UnverifiedModel {
                    root_key_id: self@.root_key_id,
                    revocation_ids: self@.revocation_ids,
                    sealed: self@.sealed,
                    next_key_ed25519: self@.next_key_ed25519,
                },
            ),
    {
        match biscuit_to_bytes(&self.0) {
            Ok(v) => Ok(v),
            Err(e) => Err(PyError::from_token(ErrorKind::BiscuitSerialization, &e)),
        }
    }

    /// Serializes the token to URL-safe base64: the padded base64 text of
    /// the bytes `to_bytes` gives. `from_base64` with its root key reads the
    /// text back as the same token, and reading it unverified gives its
    /// root key identifier and revocation identifiers.
    pub fn to_base64(&self) -> (r: String)
        ensures
            r@ == url_base64(self.bytes()),
            token_from_base64(r@, self@.root_key) == Some(self@),
            unverified_from_base64(r@) == Some(
                UnverifiedModel {
                    root_key_id: self@.root_key_id,
                    revocation_ids: self@.revocation_ids,
                    sealed: self@.sealed,
                    next_key_ed25519: self@.next_key_ed25519,
                },
            ),
    {
        match biscuit_to_base64(&self.0) {
            Ok(v) => v,
            Err(_) => {
                assert(false);
                String::new()
            },
        }
    }

    /// The number of blocks.
    pub fn block_count(&self) -> (r: usize)
        ensures
            r == self@.revocation_ids.len(),
            r == self@.external_keys.len(),
            r == self@.blocks.len(),
    {
        biscuit_block_count(&self.0)
    }

    /// A block's content as datalog code, for every block that can be
    /// printed (every block of a token built and extended by this library);
    /// an index more than one past the last block is refused with a `BiscuitBlockError` (biscuit-auth panics
    /// on the index just past the last block, which is left out).
    pub fn block_source(&self, index: usize) -> (r: Result<String, PyError>)
        requires
            index != self@.revocation_ids.len(),
        ensures
            index < self@.blocks.len() ==> (r is Ok <==> self@.blocks[index as int] is Some),
            r matches Ok(s) ==> self@.blocks[index as int] == Some(s@),
            index > self@.blocks.len() ==> r is Err,
            r matches Err(e) ==> e.kind == ErrorKind::BiscuitBlock,
    {
        match biscuit_block_source(&self.0, index) {
            Ok(s) => Ok(s),
            Err(e) => Err(PyError::from_token(ErrorKind::BiscuitBlock, &e)),
        }
    }

    /// A new token with one more block, built from the block builder; the
    /// earlier blocks and the root are unchanged. A sealed token is refused
    /// with a `BiscuitBuildError`.
    pub fn append(&self, block: &PyBlockBuilder) -> (r: Result<PyBiscuit, PyError>)
        requires
            block@ is Some,
        ensures
            self@.sealed ==> r is Err,
            (!self@.sealed && self@.next_key_ed25519) ==> r is Ok,
            r matches Ok(t) ==> one_more_block(self@, t@, None, block.source()),
            r matches Err(e) ==> reported_by_biscuit(e, ErrorKind::BiscuitBuild),
    {
        match biscuit_append(&self.0, block.builder()) {
            Ok(t) => Ok(PyBiscuit(t)),
            Err(e) => Err(PyError::from_token(ErrorKind::BiscuitBuild, &e)),
        }
    }

    /// A new token with one more block, signed by a third party; refused
    /// with a `BiscuitBuildError` unless the block was signed with the given
    /// external key, and for a sealed token.
    pub fn append_third_party(&self, external_key: &PyPublicKey, block: &PyThirdPartyBlock) -> (r: Result<
        PyBiscuit,
        PyError,
    >)
        ensures
            self@.sealed ==> r is Err,
            (!self@.sealed && self@.next_key_ed25519 && external_key@ == block@ && block.verifies()
                && block.previous() == self@.revocation_ids.last()) ==> r is Ok,
            r is Ok ==> external_key@ == block@,
            r matches Ok(t) ==> one_more_block(self@, t@, Some(external_key@), block.source()),
            r matches Err(e) ==> e.kind == ErrorKind::BiscuitBuild,
    {
        match biscuit_append_third_party(&self.0, external_key.key(), third_party_block_clone(&block.0)) {
            Ok(t) => Ok(PyBiscuit(t)),
            Err(e) => Err(PyError::from_token(ErrorKind::BiscuitBuild, &e)),
        }
    }

    /// A request for a third party to sign a block for this token; a sealed
    /// token is refused with a `BiscuitBuildError`.
    pub fn third_party_request(&self) -> (r: Result<PyThirdPartyRequest, PyError>)
        ensures
            r is Ok <==> !self@.sealed,
            r matches Ok(q) ==> q.is_live() && q.previous() == self@.revocation_ids.last(),
            r matches Err(e) ==> e.kind == ErrorKind::BiscuitBuild,
    {
        match biscuit_third_party_request(&self.0) {
            Ok(q) => Ok(PyThirdPartyRequest(Some(q))),
            Err(e) => Err(PyError::from_token(ErrorKind::BiscuitBuild, &e)),
        }
    }

    /// The revocation identifiers of the blocks, in order, as lower-case
    /// hexadecimal text.
    pub fn revocation_ids(&self) -> (r: Vec<String>)
        ensures
            r@.len() == self@.revocation_ids.len(),
            forall|i: int| 0 <= i < r@.len() ==> (#[trigger] r@[i])@ == hex_lower(self@.revocation_ids[i]),
            forall|i: int| 0 <= i < r@.len() ==> (#[trigger] r@[i])@.len() > 0,
    {
        hex_texts(&biscuit_revocation_ids(&self.0))
    }

    /// The external key of a block, if it is a third-party block; an index
    /// past the last block is refused with a `BiscuitBlockError`.
    pub fn block_external_key(&self, index: usize) -> (r: Result<Option<PyPublicKey>, PyError>)
        ensures
            r is Ok <==> index < self@.external_keys.len(),
            r matches Ok(k) ==> match k {
                Some(k) => self@.external_keys[index as int] == Some(k@),
                None => self@.external_keys[index as int] is None,
            },
            r matches Err(e) ==> e.kind == ErrorKind::BiscuitBlock,
    {
        match biscuit_block_external_key(&self.0, index) {
            Ok(Some(k)) => Ok(Some(PyPublicKey::wrap(k))),
            Ok(None) => Ok(None),
            Err(e) => Err(PyError::from_token(ErrorKind::BiscuitBlock, &e)),
        }
    }

    /// The token's text.
    pub closed spec fn text(&self) -> Seq<char> {
        token_text(self.0)
    }

    /// The bytes the token serializes into.
    pub closed spec fn bytes(&self) -> Seq<u8> {
        token_bytes(self.0)
    }

    /// The token printed as text.
    pub fn repr(&self) -> (r: String)
        ensures
            r@ == self.text(),
    {
        biscuit_print(&self.0)
    }
}

/// The lower-case hexadecimal text of each byte string, in order.
fn hex_texts(ids: &Vec<Vec<u8>>) -> (r: Vec<String>)
    ensures
        r@.len() == ids@.len(),
        forall|i: int| 0 <= i < r@.len() ==> (#[trigger] r@[i])@ == hex_lower(ids@[i]@),
{
    let mut out: Vec<String> = Vec::new();
    let mut i: usize = 0;
    while i < ids.len()
        invariant
            i <= ids.len(),
            out.len() == i,
            forall|j: int| 0 <= j < i ==> (#[trigger] out@[j])@ == hex_lower(ids@[j]@),
        decreases ids.len() - i,
    {
        out.push(hex_encode(ids[i].as_slice()));
        i = i + 1;
    }
    out
}

/// A token that has been parsed but not cryptographically verified.
pub struct PyUnverifiedBiscuit(pub(crate) UnverifiedBiscuit);

impl View for PyUnverifiedBiscuit {
    type V = UnverifiedModel;

    closed spec fn view(&self) -> UnverifiedModel {
        unverified_model(self.0)
    }
}

impl PyUnverifiedBiscuit {
    /// Reads a token from URL-safe base64 without checking its signatures;
    /// a failure is a `BiscuitValidationError`.
    pub fn from_base64(data: &str) -> (r: Result<PyUnverifiedBiscuit, PyError>)
        ensures
            r is Ok <==> unverified_from_base64(data@) is Some,
            r matches Ok(u) ==> unverified_from_base64(data@) == Some(u@),
            forall|v: Seq<u8>| #[trigger] url_base64(v) == data@ ==> (r is Ok <==> unverified_from_bytes(v) is Some),
            r matches Ok(u) ==> forall|v: Seq<u8>| #[trigger] url_base64(v) == data@ ==> unverified_from_bytes(v) == Some(u@),
            r matches Err(e) ==> e.kind == ErrorKind::BiscuitValidation,
    {
        match unverified_from_base64_call(data) {
            Ok(u) => Ok(PyUnverifiedBiscuit(u)),
            Err(e) => Err(PyError::from_token(ErrorKind::BiscuitValidation, &e)),
        }
    }

    /// Reads a token from bytes without checking its signatures; a failure
    /// is a `BiscuitValidationError`. With `root_key_id` and `verify`, this
    /// reads a token whose root key is chosen by its identifier.
    pub fn from_bytes(data: &[u8]) -> (r: Result<PyUnverifiedBiscuit, PyError>)
        ensures
            r is Ok <==> unverified_from_bytes(data@) is Some,
            r matches Ok(u) ==> unverified_from_bytes(data@) == Some(u@),
            r matches Err(e) ==> e.kind == ErrorKind::BiscuitValidation,
    {
        match unverified_from_bytes_call(data) {
            Ok(u) => Ok(PyUnverifiedBiscuit(u)),
            Err(e) => Err(PyError::from_token(ErrorKind::BiscuitValidation, &e)),
        }
    }

    /// The root key identifier, if the token has one.
    pub fn root_key_id(&self) -> (r: Option<u32>)
        ensures
            r == self@.root_key_id,
    {
        unverified_root_key_id(&self.0)
    }

    /// The number of blocks.
    pub fn block_count(&self) -> (r: usize)
        ensures
            r == self@.revocation_ids.len(),
    {
        unverified_block_count(&self.0)
    }

    /// A block's content as datalog code, for every block that can be
    /// printed (every block of a token built and extended by this library);
    /// an index more than one past the last block is refused with a `BiscuitBlockError` (biscuit-auth panics
    /// on the index just past the last block, which is left out).
    pub fn block_source(&self, index: usize) -> (r: Result<String, PyError>)
        requires
            index != self@.revocation_ids.len(),
        ensures
            r is Ok <==> self.block_text(index) is Some,
            r matches Ok(s) ==> Some(s@) == self.block_text(index),
            index > self@.revocation_ids.len() ==> r is Err,
            r matches Err(e) ==> e.kind == ErrorKind::BiscuitBlock,
    {
        match unverified_block_source(&self.0, index) {
            Ok(s) => Ok(s),
            Err(e) => Err(PyError::from_token(ErrorKind::BiscuitBlock, &e)),
        }
    }

    /// A new unverified token with one more block, built from the block
    /// builder; the earlier blocks are unchanged.
    pub fn append(&self, block: &PyBlockBuilder) -> (r: Result<PyUnverifiedBiscuit, PyError>)
        requires
            block@ is Some,
        ensures
            self@.sealed ==> r is Err,
            (!self@.sealed && self@.next_key_ed25519) ==> r is Ok,
            r matches Ok(u) ==> unverified_one_more(self@, u@),
            r matches Err(e) ==> reported_by_biscuit(e, ErrorKind::BiscuitBuild),
    {
        match unverified_append(&self.0, block.builder()) {
            Ok(u) => Ok(PyUnverifiedBiscuit(u)),
            Err(e) => Err(PyError::from_token(ErrorKind::BiscuitBuild, &e)),
        }
    }

    /// The revocation identifiers of the blocks, in order, as lower-case
    /// hexadecimal text.
    pub fn revocation_ids(&self) -> (r: Vec<String>)
        ensures
            r@.len() == self@.revocation_ids.len(),
            forall|i: int| 0 <= i < r@.len() ==> (#[trigger] r@[i])@ == hex_lower(self@.revocation_ids[i]),
    {
        hex_texts(&unverified_revocation_ids(&self.0))
    }

    /// Checks the token's signatures with the root public key; the verified
    /// token has the same blocks and root key identifier. A failure is a
    /// `BiscuitValidationError`.
    pub fn verify(&self, root: &PyPublicKey) -> (r: Result<PyBiscuit, PyError>)
        ensures
            r is Ok <==> self.signed_by(root@),
            r matches Ok(t) ==> t@.root_key == root@ && t@.root_key_id == self@.root_key_id
                && t@.revocation_ids == self@.revocation_ids && t@.sealed == self@.sealed
                && t@.next_key_ed25519 == self@.next_key_ed25519,
            r matches Err(e) ==> e.kind == ErrorKind::BiscuitValidation,
    {
        match unverified_verify(&self.0, root.key()) {
            Ok(b) => Ok(PyBiscuit(b)),
            Err(e) => Err(PyError::from_format(ErrorKind::BiscuitValidation, &e)),
        }
    }

    /// Whether the token's signatures check against the root key.
    pub closed spec fn signed_by(&self, root: KeyModel) -> bool {
        unverified_signed_by(self.0, root)
    }

    /// The datalog text of a block, if it has one.
    pub closed spec fn block_text(&self, index: usize) -> Option<Seq<char>> {
        unverified_block_source_text(self.0, index)
    }
}

/// A third-party block created with a private key from a block builder and
/// appended to a token with its signer's public key becomes the token's new
/// last block, whose source is the builder's and whose external key is that
/// public key; the earlier blocks keep theirs.
pub proof fn law_third_party_key_recorded(
    before: TokenModel,
    after: TokenModel,
    signer: KeyModel,
    block_key: KeyModel,
    external_key: KeyModel,
    block_source: Seq<char>,
    builder_source: Seq<char>,
)
    requires
        block_key == public_key_of(signer),
        block_source == builder_source,
        external_key == block_key,
        one_more_block(before, after, Some(external_key), block_source),
    ensures
        after.blocks.len() == before.blocks.len() + 1,
        after.blocks[before.blocks.len() as int] == Some(builder_source),
        forall|i: int| 0 <= i < before.blocks.len() ==> after.blocks[i] == before.blocks[i],
        after.external_keys.len() == before.external_keys.len() + 1,
        after.external_keys[before.external_keys.len() as int] == Some(public_key_of(signer)),
        forall|i: int|
            0 <= i < before.external_keys.len() ==> after.external_keys[i] == before.external_keys[i],
        after.root_key == before.root_key,
{
}

/// A token read back from the bytes it serialized into, with its root key,
/// is the same token: the same block sources, root key and identifier,
/// revocation identifiers and external keys; the base64 text of those bytes
/// reads back as the bytes do.
pub proof fn law_token_read_back(
    token: TokenModel,
    bytes: Seq<u8>,
    back: TokenModel,
    text: Seq<char>,
    via_text: TokenModel,
)
    requires
        token_from_bytes(bytes, token.root_key) == Some(token),
        token_from_bytes(bytes, token.root_key) == Some(back),
        text == url_base64(bytes),
        forall|v: Seq<u8>| #[trigger] url_base64(v) == text ==> token_from_bytes(v, token.root_key) == Some(via_text),
    ensures
        back == token,
        back.blocks == token.blocks,
        back.revocation_ids == token.revocation_ids,
        back.root_key_id == token.root_key_id,
        back.external_keys == token.external_keys,
        via_text == token,
{
}

/// A third-party block created from a token's request and handed back with
/// its signer's public key meets everything `append_third_party` checks on
/// that open token, when the token's next key is an Ed25519 key, as it is
/// for every token built or extended here; and a token extended by a block
/// is again such a token.
pub proof fn law_third_party_block_accepted(
    token: TokenModel,
    request_signature: Seq<u8>,
    block_previous: Seq<u8>,
    block_verifies: bool,
    block_key: KeyModel,
    signer: KeyModel,
    external_key: KeyModel,
    extended: TokenModel,
    source: Seq<char>,
)
    requires
        !token.sealed,
        token.next_key_ed25519,
        request_signature == token.revocation_ids.last(),
        block_previous == request_signature,
        block_verifies,
        block_key == public_key_of(signer),
        external_key == public_key_of(signer),
        one_more_block(token, extended, Some(external_key), source),
    ensures
        !token.sealed && token.next_key_ed25519 && external_key == block_key && block_verifies
            && block_previous == token.revocation_ids.last(),
        !extended.sealed && extended.next_key_ed25519,
{
}

/// Whether a token takes one more block: it is open, and the key it holds
/// to sign the next block is an Ed25519 key.
pub open spec fn takes_blocks(t: TokenModel) -> bool {
    !t.sealed && t.next_key_ed25519
}

/// Appending has no limit on the number of blocks: along any run of
/// appends (first-party or third-party) from a token that takes blocks,
/// each token again takes blocks, so `append` on it returns a token, and
/// the `i`-th holds `i` more blocks than the first, whose blocks it keeps
/// in place.
pub proof fn law_appends_have_no_limit(
    tokens: Seq<TokenModel>,
    external: Seq<Option<KeyModel>>,
    sources: Seq<Seq<char>>,
)
    requires
        tokens.len() >= 1,
        takes_blocks(tokens[0]),
        forall|i: int|
            0 <= i < tokens.len() - 1 ==> one_more_block(
                #[trigger] tokens[i],
                tokens[i + 1],
                external[i],
                sources[i],
            ),
    ensures
        forall|i: int| 0 <= i < tokens.len() ==> takes_blocks(#[trigger] tokens[i]),
        forall|i: int|
            0 <= i < tokens.len() ==> (#[trigger] tokens[i]).blocks.len() == tokens[0].blocks.len() + i
                && tokens[i].blocks.take(tokens[0].blocks.len() as int) == tokens[0].blocks,
    decreases tokens.len(),
{
    if tokens.len() > 1 {
        let p = tokens.drop_last();
        assert forall|i: int| 0 <= i < p.len() - 1 implies one_more_block(
            #[trigger] p[i],
            p[i + 1],
            external[i],
            sources[i],
        ) by {
            assert(p[i] == tokens[i] && p[i + 1] == tokens[i + 1]);
        }
        law_appends_have_no_limit(p, external, sources);
        let n = tokens.len() - 1;
        assert(p[n - 1] == tokens[n - 1]);
        assert(one_more_block(tokens[n - 1], tokens[n], external[n - 1], sources[n - 1]));
        assert forall|i: int| 0 <= i < tokens.len() implies takes_blocks(#[trigger] tokens[i]) by {
            if i < n {
                assert(p[i] == tokens[i]);
            }
        }
        assert forall|i: int| 0 <= i < tokens.len() implies (#[trigger] tokens[i]).blocks.len()
            == tokens[0].blocks.len() + i && tokens[i].blocks.take(tokens[0].blocks.len() as int)
            == tokens[0].blocks by {
            assert(p[0] == tokens[0]);
            if i < n {
                assert(p[i] == tokens[i]);
            } else {
                let b0 = tokens[0].blocks;
                let bp = tokens[n - 1].blocks;
                assert(bp.take(b0.len() as int) == b0);
                assert(tokens[n].blocks == bp.push(Some(sources[n - 1])));
                assert(tokens[n].blocks.take(b0.len() as int) =~= bp.take(b0.len() as int));
            }
        }
    }
}

/// The unverified token after one more block: the same root key
/// identifier, the earlier revocation identifiers kept and one more, and
/// still open with an Ed25519 key to sign the next block.
pub open spec fn unverified_one_more(before: UnverifiedModel, after: UnverifiedModel) -> bool {
    &&& after.root_key_id == before.root_key_id
    &&& after.revocation_ids.len() == before.revocation_ids.len() + 1
    &&& after.revocation_ids.take(before.revocation_ids.len() as int) == before.revocation_ids
    &&& !after.sealed
    &&& after.next_key_ed25519
}

/// Whether an unverified token takes one more block: it is open, and the
/// key it holds to sign the next block is an Ed25519 key.
pub open spec fn unverified_takes_blocks(u: UnverifiedModel) -> bool {
    !u.sealed && u.next_key_ed25519
}

/// Appending to an unverified token does not depend on its root key
/// identifier, and has no limit on the number of blocks: whether a token
/// takes a block is the same for every root key identifier, and along any
/// run of appends from a token that takes blocks each token again takes
/// blocks (so `append` on it returns a token), keeps the first token's root
/// key identifier, and holds `i` more blocks than the first.
pub proof fn law_unverified_appends_ignore_root_key_id(us: Seq<UnverifiedModel>, other_id: Option<u32>)
    requires
        us.len() >= 1,
        unverified_takes_blocks(us[0]),
        forall|i: int| 0 <= i < us.len() - 1 ==> unverified_one_more(#[trigger] us[i], us[i + 1]),
    ensures
        forall|i: int|
            0 <= i < us.len() ==> unverified_takes_blocks(#[trigger] us[i]) && unverified_takes_blocks(
                UnverifiedModel { root_key_id: other_id, ..us[i] },
            ),
        forall|i: int|
            0 <= i < us.len() ==> (#[trigger] us[i]).root_key_id == us[0].root_key_id
                && us[i].revocation_ids.len() == us[0].revocation_ids.len() + i,
    decreases us.len(),
{
    if us.len() > 1 {
        let p = us.drop_last();
        assert forall|i: int| 0 <= i < p.len() - 1 implies unverified_one_more(#[trigger] p[i], p[i + 1]) by {
            assert(p[i] == us[i] && p[i + 1] == us[i + 1]);
        }
        law_unverified_appends_ignore_root_key_id(p, other_id);
        let n = us.len() - 1;
        assert(p[n - 1] == us[n - 1]);
        assert(unverified_one_more(us[n - 1], us[n]));
        assert(p[0] == us[0]);
        assert forall|i: int| 0 <= i < us.len() implies unverified_takes_blocks(#[trigger] us[i])
            && unverified_takes_blocks(UnverifiedModel { root_key_id: other_id, ..us[i] }) && us[i].root_key_id
            == us[0].root_key_id && us[i].revocation_ids.len() == us[0].revocation_ids.len() + i by {
            if i < n {
                assert(p[i] == us[i]);
            }
        }
    }
}

/// Building never fails with an Ed25519 root key, and a failure with any
/// root key is an error biscuit-auth reported; a token that is built holds
/// one block, is verified by the root key's public key, and takes more
/// blocks.
pub proof fn law_build_outcome(root: KeyModel, r: Result<TokenModel, PyError>)
    requires
        root.algorithm == PyAlgorithm::Ed25519 ==> r is Ok,
        r matches Ok(t) ==> t.root_key == public_key_of(root) && t.revocation_ids.len() == 1 && !t.sealed
            && t.next_key_ed25519,
        r matches Err(e) ==> reported_by_biscuit(e, ErrorKind::BiscuitBuild),
    ensures
        r is Err ==> root.algorithm == PyAlgorithm::Secp256r1,
        r matches Err(e) ==> e.kind == ErrorKind::BiscuitBuild && exists|x: biscuit_auth::error::Token|
            token_error_message(x) == e.message@,
        r matches Ok(t) ==> takes_blocks(t) && t.root_key == public_key_of(root),
{
}

/// A request for a third-party block. It is consumed by creating the block.
pub struct PyThirdPartyRequest(pub(crate) Option<ThirdPartyRequest>);

impl PyThirdPartyRequest {
    /// Whether the request has not been consumed.
    pub closed spec fn is_live(&self) -> bool {
        self.0 is Some
    }

    /// Whether creating a block from the builder, signed with the key,
    /// succeeds; it depends on the request, the key and the builder alone.
    pub closed spec fn creates_block(&self, key: &PyPrivateKey, block: &PyBlockBuilder) -> bool {
        third_party_block_created(self.0->Some_0, key.inner(), block.inner())
    }

    /// The signature of the last block of the token the request was made
    /// for.
    pub closed spec fn previous(&self) -> Seq<u8> {
        third_party_request_signature(self.0->Some_0)
    }

    /// Whether the request has been consumed.
    pub fn is_consumed(&self) -> (r: bool)
        ensures
            r == !self.is_live(),
    {
        self.0.is_none()
    }

    /// Creates the third-party block, signed with the private key; this
    /// consumes the request, whether or not it succeeds. The block carries
    /// the key's public key.
    pub fn create_block(&mut self, private_key: &PyPrivateKey, block: &PyBlockBuilder) -> (r: Result<
        PyThirdPartyBlock,
        PyError,
    >)
        requires
            old(self).is_live(),
            block@ is Some,
        ensures
            !final(self).is_live(),
            r is Ok <==> old(self).creates_block(private_key, block),
            r matches Ok(t) ==> t@ == public_key_of(private_key@),
            r matches Ok(t) ==> t.source() == block.source(),
            r matches Ok(t) ==> t.previous() == old(self).previous() && t.verifies(),
            r matches Err(e) ==> e.kind == ErrorKind::BiscuitBuild,
    {
        let req = self.0.take().unwrap();
        match third_party_create_block(req, private_key.key(), block.builder()) {
            Ok(t) => Ok(PyThirdPartyBlock(t)),
            Err(e) => Err(PyError::from_token(ErrorKind::BiscuitBuild, &e)),
        }
    }
}

/// A signed third-party block, viewed as the public key that signed it.
pub struct PyThirdPartyBlock(pub(crate) ThirdPartyBlock);

impl View for PyThirdPartyBlock {
    type V = KeyModel;

    closed spec fn view(&self) -> KeyModel {
        third_party_block_key(self.0)
    }
}

impl PyThirdPartyBlock {
    /// The datalog source of the block it carries.
    pub closed spec fn source(&self) -> Seq<char> {
        third_party_block_source(self.0)
    }

    /// The signature of the previous block it was signed against.
    pub closed spec fn previous(&self) -> Seq<u8> {
        third_party_block_previous(self.0)
    }

    /// Whether its payload decodes and its signature checks under its key.
    pub closed spec fn verifies(&self) -> bool {
        third_party_block_verifies(self.0)
    }
}

} // verus!
