//! The announcement of the server to the master list: what is sent to add
//! the server to the list and to keep it there.

use crate::digest::{md5_digest, md5_of, sha256_hex, sha256_hex_of};
use crate::entropy::{is_token_text, is_uuid_text, new_uuid_text, random_token};
use crate::text::{decimal, hex, to_decimal_u128, to_hex};
use vstd::prelude::*;
use vstd::slice::slice_subrange;
use vstd::string::StringExecFns;
use vstd::string::StringSliceAdditionalSpecFns;
use vstd::utf8::encode_utf8;

verus! {

/// The number of characters of the token that proves who announced a
/// server.
pub const TOKEN_LENGTH: usize = 40;

/// What is announced of a server.
#[derive(Debug)]
pub struct UplistData {
    server_uuid: String,
    game_name: String,
    time: u128,
    token: String,
    passwd: String,
    port: usize,
    player_size: usize,
    player_max_size: usize,
    game_map: String,
    created_by: String,
    private_ip: String,
    game_status: String,
}

/// What an announcement is: its texts as bytes, and its numbers.
pub struct UplistDataView {
    pub server_uuid: Seq<u8>,
    pub game_name: Seq<u8>,
    /// The time of the announcement, in milliseconds since 1970.
    pub time: u128,
    pub token: Seq<u8>,
    pub passwd: Seq<u8>,
    pub port: usize,
    pub player_size: usize,
    pub player_max_size: usize,
    pub game_map: Seq<u8>,
    pub created_by: Seq<u8>,
    pub private_ip: Seq<u8>,
    pub game_status: Seq<u8>,
}

impl View for UplistData {
    type V = UplistDataView;

    closed spec fn view(&self) -> UplistDataView {
        UplistDataView {
            server_uuid: encode_utf8(self.server_uuid@),
            game_name: encode_utf8(self.game_name@),
            time: self.time,
            token: encode_utf8(self.token@),
            passwd: encode_utf8(self.passwd@),
            port: self.port,
            player_size: self.player_size,
            player_max_size: self.player_max_size,
            game_map: encode_utf8(self.game_map@),
            created_by: encode_utf8(self.created_by@),
            private_ip: encode_utf8(self.private_ip@),
            game_status: encode_utf8(self.game_status@),
        }
    }
}

/// The first `count` of `bytes`, or all of them where they are fewer.
pub open spec fn head(bytes: Seq<u8>, count: int) -> Seq<u8> {
    if bytes.len() <= count {
        bytes
    } else {
        bytes.subrange(0, count)
    }
}

/// The first four upper-case hexadecimal digits of the MD5 digest of the
/// first five hexadecimal digits of the SHA-256 digest of `SHA256_` and
/// `seed`.
pub open spec fn short_check(seed: Seq<u8>) -> Seq<u8> {
    head(hex(md5_of(head(sha256_hex_of("SHA256_".spec_bytes() + seed), 5)), true), 4)
}

/// The hexadecimal MD5 digest of the MD5 digest of the token.
pub open spec fn second_token(token: Seq<u8>) -> Seq<u8> {
    hex(md5_of(md5_of(token)), false)
}

/// The hexadecimal MD5 digest of the letter `a` and the hexadecimal MD5
/// digest of the token.
pub open spec fn confirmation(token: Seq<u8>) -> Seq<u8> {
    hex(md5_of("a".spec_bytes() + hex(md5_of(token), false)), false)
}

impl UplistDataView {
    /// The form that adds the server to the master list.
    pub open spec fn add_body(self) -> Seq<u8> {
        "action=add&user_id=".spec_bytes() + self.server_uuid + "&game_name=".spec_bytes()
            + self.game_name + "&_1=".spec_bytes() + decimal(self.time as nat)
            + "&tx2=".spec_bytes() + short_check(head(self.server_uuid, 6)) + "&tx3=".spec_bytes()
            + short_check(head(self.server_uuid, 6) + decimal(self.time as nat))
            + "&game_version=176&game_version_string=1.15-Othe&game_version_beta=false&private_token=".spec_bytes()
            + self.token + "&private_token_2=".spec_bytes() + second_token(self.token)
            + "&confirm=".spec_bytes() + confirmation(self.token)
            + "&password_required=".spec_bytes() + self.passwd + "&created_by=".spec_bytes()
            + self.created_by + "&private_ip=".spec_bytes() + self.private_ip
            + "&port_number=".spec_bytes() + decimal(self.port as nat) + "&game_map=".spec_bytes()
            + self.game_map
            + "&game_mode=skirmishMap&game_status=battleroom&player_count=".spec_bytes()
            + decimal(self.player_size as nat) + "&max_player_count=".spec_bytes() + decimal(
            self.player_max_size as nat,
        )
    }

    /// The form that keeps the server on the master list.
    pub open spec fn update_body(self) -> Seq<u8> {
        "action=update&id=".spec_bytes() + self.server_uuid + "&private_token=".spec_bytes()
            + self.token + "&password_required=".spec_bytes() + self.passwd
            + "&created_by=".spec_bytes() + self.created_by
            + "&private_ip=34.92.10.132&port_number=".spec_bytes() + decimal(self.port as nat)
            + "&game_map=".spec_bytes() + self.game_map
            + "&game_mode=skirmishMap&game_status=".spec_bytes() + self.game_status
            + "&player_count=".spec_bytes() + decimal(self.player_size as nat)
            + "&max_player_count=".spec_bytes() + decimal(self.player_max_size as nat)
    }
}

/// Puts `piece` behind `body`.
fn append(body: &mut Vec<u8>, piece: &[u8])
    ensures
        final(body)@ == old(body)@ + piece@,
{
    body.extend_from_slice(piece);
    assert(body@ =~= old(body)@ + piece@);
}

/// Puts the decimal digits of `n` behind `body`.
fn append_decimal(body: &mut Vec<u8>, n: u128)
    ensures
        final(body)@ == old(body)@ + decimal(n as nat),
{
    let digits: Vec<u8> = to_decimal_u128(n);
    append(body, digits.as_slice());
}

/// The first `count` of `bytes`, or all of them where they are fewer.
fn take_head(bytes: &[u8], count: usize) -> (first: &[u8])
    ensures
        first@ == head(bytes@, count as int),
{
    if bytes.len() <= count {
        bytes
    } else {
        slice_subrange(bytes, 0, count)
    }
}

/// Computes the short check of `seed`.
pub fn compute_short_check(seed: &[u8]) -> (check: Vec<u8>)
    ensures
        check@ == short_check(seed@),
{
    let mut salted: Vec<u8> = Vec::new();
    append(&mut salted, "SHA256_".as_bytes());
    append(&mut salted, seed);
    assert(salted@ =~= "SHA256_".spec_bytes() + seed@);
    let digits: Vec<u8> = sha256_hex(salted.as_slice());
    let digest: [u8; 16] = md5_digest(take_head(digits.as_slice(), 5));
    let shown: Vec<u8> = to_hex(digest.as_slice(), true);
    let mut check: Vec<u8> = Vec::new();
    append(&mut check, take_head(shown.as_slice(), 4));
    assert(check@ =~= short_check(seed@));
    check
}

/// Computes the second token of `token`.
pub fn compute_second_token(token: &[u8]) -> (second: Vec<u8>)
    ensures
        second@ == second_token(token@),
{
    let first: [u8; 16] = md5_digest(token);
    let twice: [u8; 16] = md5_digest(first.as_slice());
    to_hex(twice.as_slice(), false)
}

/// Computes the confirmation of `token`.
pub fn compute_confirmation(token: &[u8]) -> (confirm: Vec<u8>)
    ensures
        confirm@ == confirmation(token@),
{
    let first: [u8; 16] = md5_digest(token);
    let shown: Vec<u8> = to_hex(first.as_slice(), false);
    let mut marked: Vec<u8> = Vec::new();
    append(&mut marked, "a".as_bytes());
    append(&mut marked, shown.as_slice());
    assert(marked@ =~= "a".spec_bytes() + hex(md5_of(token@), false));
    let digest: [u8; 16] = md5_digest(marked.as_slice());
    to_hex(digest.as_slice(), false)
}

impl UplistData {
    /// An announcement under the given id and token.
    pub fn with(
        server_uuid: String,
        token: String,
        passwd: &str,
        game_name: &str,
        port: usize,
        player_size: usize,
        player_max_size: usize,
        game_map: &str,
        created_by: &str,
        private_ip: &str,
        game_status: &str,
        time: u128,
    ) -> (data: UplistData)
        ensures
            data@ == (UplistDataView {
                server_uuid: encode_utf8(server_uuid@),
                game_name: game_name.spec_bytes(),
                time,
                token: encode_utf8(token@),
                passwd: passwd.spec_bytes(),
                port,
                player_size,
                player_max_size,
                game_map: game_map.spec_bytes(),
                created_by: created_by.spec_bytes(),
                private_ip: private_ip.spec_bytes(),
                game_status: game_status.spec_bytes(),
            }),
    {
        UplistData {
            server_uuid,
            game_name: game_name.to_owned(),
            time,
            token,
            passwd: passwd.to_owned(),
            port,
            player_size,
            player_max_size,
            game_map: game_map.to_owned(),
            created_by: created_by.to_owned(),
            private_ip: private_ip.to_owned(),
            game_status: game_status.to_owned(),
        }
    }

    /// An announcement made at `time`, in milliseconds since 1970, under a
    /// fresh id, which is `u_` and a unique id, and a fresh token of forty
    /// letters and digits.
    pub fn new(
        passwd: &str,
        game_name: &str,
        port: usize,
        player_size: usize,
        player_max_size: usize,
        game_map: &str,
        created_by: &str,
        private_ip: &str,
        game_status: &str,
        time: u128,
    ) -> (data: UplistData)
        ensures
            exists|uuid: Seq<char>, token: Seq<char>|
                {
                    &&& is_uuid_text(uuid)
                    &&& token.len() == TOKEN_LENGTH
                    &&& is_token_text(token)
                    &&& data@ == (UplistDataView {
                        server_uuid: encode_utf8("u_"@ + uuid),
                        game_name: game_name.spec_bytes(),
                        time,
                        token: encode_utf8(token),
                        passwd: passwd.spec_bytes(),
                        port,
                        player_size,
                        player_max_size,
                        game_map: game_map.spec_bytes(),
                        created_by: created_by.spec_bytes(),
                        private_ip: private_ip.spec_bytes(),
                        game_status: game_status.spec_bytes(),
                    })
                },
    {
        let uuid: String = new_uuid_text();
        let token: String = random_token(TOKEN_LENGTH);
        let mut server_uuid: String = String::from_str("u_");
        server_uuid.append(uuid.as_str());
        let data = UplistData::with(
            server_uuid,
            token,
            passwd,
            game_name,
            port,
            player_size,
            player_max_size,
            game_map,
            created_by,
            private_ip,
            game_status,
            time,
        );
        assert(data@.server_uuid == encode_utf8("u_"@ + uuid@));
        data
    }

    /// The id under which the server is announced.
    pub fn server_uuid(&self) -> (id: &str)
        ensures
            id.spec_bytes() == self@.server_uuid,
    {
        self.server_uuid.as_str()
    }

    /// The token that proves who announced the server.
    pub fn token(&self) -> (token: &str)
        ensures
            token.spec_bytes() == self@.token,
    {
        self.token.as_str()
    }

    /// The form that adds the server to the master list.
    pub fn add_body(&self) -> (body: Vec<u8>)
        ensures
            body@ == self@.add_body(),
    {
        let id: &[u8] = self.server_uuid.as_str().as_bytes();
        let token: &[u8] = self.token.as_str().as_bytes();
        let time: Vec<u8> = to_decimal_u128(self.time);
        let mut timed: Vec<u8> = Vec::new();
        append(&mut timed, take_head(id, 6));
        append(&mut timed, time.as_slice());
        assert(timed@ =~= head(self@.server_uuid, 6) + decimal(self.time as nat));
        let tx2: Vec<u8> = compute_short_check(take_head(id, 6));
        let tx3: Vec<u8> = compute_short_check(timed.as_slice());
        let second: Vec<u8> = compute_second_token(token);
        let confirm: Vec<u8> = compute_confirmation(token);
        let mut body: Vec<u8> = Vec::new();
        append(&mut body, "action=add&user_id=".as_bytes());
        assert(body@ =~= "action=add&user_id=".spec_bytes());
        append(&mut body, id);
        append(&mut body, "&game_name=".as_bytes());
        append(&mut body, self.game_name.as_str().as_bytes());
        append(&mut body, "&_1=".as_bytes());
        append(&mut body, time.as_slice());
        append(&mut body, "&tx2=".as_bytes());
        append(&mut body, tx2.as_slice());
        append(&mut body, "&tx3=".as_bytes());
        append(&mut body, tx3.as_slice());
        append(
            &mut body,
            "&game_version=176&game_version_string=1.15-Othe&game_version_beta=false&private_token=".as_bytes(),
        );
        append(&mut body, token);
        append(&mut body, "&private_token_2=".as_bytes());
        append(&mut body, second.as_slice());
        append(&mut body, "&confirm=".as_bytes());
        append(&mut body, confirm.as_slice());
        append(&mut body, "&password_required=".as_bytes());
        append(&mut body, self.passwd.as_str().as_bytes());
        append(&mut body, "&created_by=".as_bytes());
        append(&mut body, self.created_by.as_str().as_bytes());
        append(&mut body, "&private_ip=".as_bytes());
        append(&mut body, self.private_ip.as_str().as_bytes());
        append(&mut body, "&port_number=".as_bytes());
        append_decimal(&mut body, self.port as u128);
        append(&mut body, "&game_map=".as_bytes());
        append(&mut body, self.game_map.as_str().as_bytes());
        append(
            &mut body,
            "&game_mode=skirmishMap&game_status=battleroom&player_count=".as_bytes(),
        );
        append_decimal(&mut body, self.player_size as u128);
        append(&mut body, "&max_player_count=".as_bytes());
        append_decimal(&mut body, self.player_max_size as u128);
        body
    }

    /// The form that keeps the server on the master list.
    pub fn update_body(&self) -> (body: Vec<u8>)
        ensures
            body@ == self@.update_body(),
    {
        let mut body: Vec<u8> = Vec::new();
        append(&mut body, "action=update&id=".as_bytes());
        assert(body@ =~= "action=update&id=".spec_bytes());
        append(&mut body, self.server_uuid.as_str().as_bytes());
        append(&mut body, "&private_token=".as_bytes());
        append(&mut body, self.token.as_str().as_bytes());
        append(&mut body, "&password_required=".as_bytes());
        append(&mut body, self.passwd.as_str().as_bytes());
        append(&mut body, "&created_by=".as_bytes());
        append(&mut body, self.created_by.as_str().as_bytes());
        append(&mut body, "&private_ip=34.92.10.132&port_number=".as_bytes());
        append_decimal(&mut body, self.port as u128);
        append(&mut body, "&game_map=".as_bytes());
        append(&mut body, self.game_map.as_str().as_bytes());
        append(&mut body, "&game_mode=skirmishMap&game_status=".as_bytes());
        append(&mut body, self.game_status.as_str().as_bytes());
        append(&mut body, "&player_count=".as_bytes());
        append_decimal(&mut body, self.player_size as u128);
        append(&mut body, "&max_player_count=".as_bytes());
        append_decimal(&mut body, self.player_max_size as u128);
        body
    }
}

} // verus!
