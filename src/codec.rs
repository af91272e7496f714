//! Navigation payloads and their compact text form for button callback data.
//!
//! A payload is written as a dense tagged binary form (one tag byte per enum
//! level, zigzag varints for identifiers) and then as URL-safe base64 without
//! padding. Every payload fits in the 64 bytes that a button may carry.
use vstd::prelude::*;
use base64::Engine;
use crate::wire::{
    holds_at, le32, lemma_holds_join, lemma_holds_split, lemma_le32, lemma_le32_canonical,
    lemma_parse_varint_canonical, lemma_unzigzag, lemma_varint_len, lemma_varint_parse,
    lemma_zigzag_i32, lemma_zigzag_i64, parse_le32, parse_varint, unzigzag, varint, zigzag,
    U32_MAX, U64_MAX, read_le32, read_varint, unzigzag_i32, unzigzag_i64, write_le32,
    write_varint, zigzag_i32, zigzag_i64,
};

verus! {

/// Largest text form of a payload, in bytes: the platform's callback limit.
pub const MAX_CALLBACK_LEN: usize = 64;

/// A device command carried by a quick-action button.
#[derive(Clone, Copy, Debug, PartialEq, Eq, Structural)]
pub enum DeviceCmd {
    Toggle,
    TurnOn,
    TurnOff,
    SetLevel(u8),
    /// Target temperature as the bit pattern of an IEEE-754 single-precision number.
    SetTemp(u32),
    /// Chart over `h` hours, shifted by `o` hours from now.
    ShowChart { h: u32, o: i32 },
    EnterManualInput,
}

#[derive(Clone, Copy, Debug, PartialEq, Eq, Structural)]
pub enum ControlPayload {
    ListRooms,
    RoomDetail { room: i64 },
    DeviceControl { room: i64, device: i64 },
    QuickAction { room: i64, device: i64, cmd: DeviceCmd },
}

#[derive(Clone, Copy, Debug, PartialEq, Eq, Structural)]
pub enum SettingsPayload {
    ListRooms,
    RoomDetail { room: i64 },
    DeviceDetail { room: i64, device: i64 },
    ToggleNotify { room: i64, device: i64 },
    ToggleHide { room: i64, device: i64 },
    EditName { room: i64, device: i64 },
}

#[derive(Clone, Copy, Debug, PartialEq, Eq, Structural)]
pub enum AdminPayload {
    ListActions,
    ListUsers,
    AddUser { id: u32 },
    DeleteUser { id: u32 },
}

/// A navigation intent: which screen to show, with what parameters.
#[derive(Clone, Copy, Debug, PartialEq, Eq, Structural)]
pub enum Payload {
    Home,
    Control(ControlPayload),
    Settings(SettingsPayload),
    Admin(AdminPayload),
    InDev,
}

impl Default for Payload {
    fn default() -> (r: Payload)
        ensures
            r == Payload::Home,
    {
        Payload::Home
    }
}

/// Why a text could not be read back as a payload.
#[derive(Clone, Copy, Debug, PartialEq, Eq, Structural)]
pub enum DecodeError {
    /// The text is not URL-safe unpadded base64.
    NotBase64,
    /// The bytes are not the binary form of any payload.
    Malformed,
}

// ---------------------------------------------------------------------------
// The binary form.

pub open spec fn i64_bytes(x: i64) -> Seq<u8> {
    varint(zigzag(x as int))
}

pub open spec fn u32_bytes(x: u32) -> Seq<u8> {
    varint(x as nat)
}

pub open spec fn i32_bytes(x: i32) -> Seq<u8> {
    varint(zigzag(x as int))
}

pub open spec fn pair_bytes(room: i64, device: i64) -> Seq<u8> {
    i64_bytes(room) + i64_bytes(device)
}

pub open spec fn cmd_bytes(c: DeviceCmd) -> Seq<u8> {
    match c {
        DeviceCmd::Toggle => seq![0u8],
        DeviceCmd::TurnOn => seq![1u8],
        DeviceCmd::TurnOff => seq![2u8],
        DeviceCmd::SetLevel(v) => seq![3u8] + seq![v],
        DeviceCmd::SetTemp(w) => seq![4u8] + le32(w),
        DeviceCmd::ShowChart { h, o } => seq![5u8] + (u32_bytes(h) + i32_bytes(o)),
        DeviceCmd::EnterManualInput => seq![6u8],
    }
}

pub open spec fn control_bytes(c: ControlPayload) -> Seq<u8> {
    match c {
        ControlPayload::ListRooms => seq![0u8],
        ControlPayload::RoomDetail { room } => seq![1u8] + i64_bytes(room),
        ControlPayload::DeviceControl { room, device } => seq![2u8] + pair_bytes(room, device),
        ControlPayload::QuickAction { room, device, cmd } => seq![3u8] + (pair_bytes(room, device)
            + cmd_bytes(cmd)),
    }
}

pub open spec fn settings_bytes(s: SettingsPayload) -> Seq<u8> {
    match s {
        SettingsPayload::ListRooms => seq![0u8],
        SettingsPayload::RoomDetail { room } => seq![1u8] + i64_bytes(room),
        SettingsPayload::DeviceDetail { room, device } => seq![2u8] + pair_bytes(room, device),
        SettingsPayload::ToggleNotify { room, device } => seq![3u8] + pair_bytes(room, device),
        SettingsPayload::ToggleHide { room, device } => seq![4u8] + pair_bytes(room, device),
        SettingsPayload::EditName { room, device } => seq![5u8] + pair_bytes(room, device),
    }
}

pub open spec fn admin_bytes(a: AdminPayload) -> Seq<u8> {
    match a {
        AdminPayload::ListActions => seq![0u8],
        AdminPayload::ListUsers => seq![1u8],
        AdminPayload::AddUser { id } => seq![2u8] + u32_bytes(id),
        AdminPayload::DeleteUser { id } => seq![3u8] + u32_bytes(id),
    }
}

/// The binary form of a payload.
pub open spec fn payload_bytes(p: Payload) -> Seq<u8> {
    match p {
        Payload::Home => seq![0u8],
        Payload::Control(c) => seq![1u8] + control_bytes(c),
        Payload::Settings(s) => seq![2u8] + settings_bytes(s),
        Payload::Admin(a) => seq![3u8] + admin_bytes(a),
        Payload::InDev => seq![4u8],
    }
}

pub open spec fn is_payload_encoding(b: Seq<u8>) -> bool {
    exists|p: Payload| payload_bytes(p) == b
}

// ---------------------------------------------------------------------------
// Reading the binary form back, position by position.

pub open spec fn parse_i64(b: Seq<u8>, pos: int) -> Option<(i64, int)> {
    match parse_varint(b, pos, U64_MAX as nat) {
        Some((u, e)) => Some((unzigzag(u) as i64, e)),
        None => None,
    }
}

pub open spec fn parse_u32(b: Seq<u8>, pos: int) -> Option<(u32, int)> {
    match parse_varint(b, pos, U32_MAX as nat) {
        Some((u, e)) => Some((u as u32, e)),
        None => None,
    }
}

pub open spec fn parse_i32(b: Seq<u8>, pos: int) -> Option<(i32, int)> {
    match parse_varint(b, pos, U32_MAX as nat) {
        Some((u, e)) => Some((unzigzag(u) as i32, e)),
        None => None,
    }
}

pub open spec fn parse_pair(b: Seq<u8>, pos: int) -> Option<(i64, i64, int)> {
    match parse_i64(b, pos) {
        Some((room, e1)) => match parse_i64(b, e1) {
            Some((device, e2)) => Some((room, device, e2)),
            None => None,
        },
        None => None,
    }
}

pub open spec fn parse_cmd(b: Seq<u8>, pos: int) -> Option<(DeviceCmd, int)> {
    if pos < 0 || pos >= b.len() {
        None
    } else {
        let t = b[pos];
        if t == 0 {
            Some((DeviceCmd::Toggle, pos + 1))
        } else if t == 1 {
            Some((DeviceCmd::TurnOn, pos + 1))
        } else if t == 2 {
            Some((DeviceCmd::TurnOff, pos + 1))
        } else if t == 3 {
            if pos + 1 < b.len() {
                Some((DeviceCmd::SetLevel(b[pos + 1]), pos + 2))
            } else {
                None
            }
        } else if t == 4 {
            match parse_le32(b, pos + 1) {
                Some((w, e)) => Some((DeviceCmd::SetTemp(w), e)),
                None => None,
            }
        } else if t == 5 {
            match parse_u32(b, pos + 1) {
                Some((h, e1)) => match parse_i32(b, e1) {
                    Some((o, e2)) => Some((DeviceCmd::ShowChart { h, o }, e2)),
                    None => None,
                },
                None => None,
            }
        } else if t == 6 {
            Some((DeviceCmd::EnterManualInput, pos + 1))
        } else {
            None
        }
    }
}

pub open spec fn parse_control(b: Seq<u8>, pos: int) -> Option<(ControlPayload, int)> {
    if pos < 0 || pos >= b.len() {
        None
    } else {
        let t = b[pos];
        if t == 0 {
            Some((ControlPayload::ListRooms, pos + 1))
        } else if t == 1 {
            match parse_i64(b, pos + 1) {
                Some((room, e)) => Some((ControlPayload::RoomDetail { room }, e)),
                None => None,
            }
        } else if t == 2 {
            match parse_pair(b, pos + 1) {
                Some((room, device, e)) => Some((ControlPayload::DeviceControl { room, device }, e)),
                None => None,
            }
        } else if t == 3 {
            match parse_pair(b, pos + 1) {
                Some((room, device, e1)) => match parse_cmd(b, e1) {
                    Some((cmd, e2)) => Some((ControlPayload::QuickAction { room, device, cmd }, e2)),
                    None => None,
                },
                None => None,
            }
        } else {
            None
        }
    }
}

pub open spec fn settings_with_pair(t: u8, room: i64, device: i64) -> SettingsPayload {
    if t == 2 {
        SettingsPayload::DeviceDetail { room, device }
    } else if t == 3 {
        SettingsPayload::ToggleNotify { room, device }
    } else if t == 4 {
        SettingsPayload::ToggleHide { room, device }
    } else {
        SettingsPayload::EditName { room, device }
    }
}

pub open spec fn parse_settings(b: Seq<u8>, pos: int) -> Option<(SettingsPayload, int)> {
    if pos < 0 || pos >= b.len() {
        None
    } else {
        let t = b[pos];
        if t == 0 {
            Some((SettingsPayload::ListRooms, pos + 1))
        } else if t == 1 {
            match parse_i64(b, pos + 1) {
                Some((room, e)) => Some((SettingsPayload::RoomDetail { room }, e)),
                None => None,
            }
        } else if 2 <= t <= 5 {
            match parse_pair(b, pos + 1) {
                Some((room, device, e)) => Some((settings_with_pair(t, room, device), e)),
                None => None,
            }
        } else {
            None
        }
    }
}

pub open spec fn parse_admin(b: Seq<u8>, pos: int) -> Option<(AdminPayload, int)> {
    if pos < 0 || pos >= b.len() {
        None
    } else {
        let t = b[pos];
        if t == 0 {
            Some((AdminPayload::ListActions, pos + 1))
        } else if t == 1 {
            Some((AdminPayload::ListUsers, pos + 1))
        } else if t == 2 {
            match parse_u32(b, pos + 1) {
                Some((id, e)) => Some((AdminPayload::AddUser { id }, e)),
                None => None,
            }
        } else if t == 3 {
            match parse_u32(b, pos + 1) {
                Some((id, e)) => Some((AdminPayload::DeleteUser { id }, e)),
                None => None,
            }
        } else {
            None
        }
    }
}

pub open spec fn parse_payload_at(b: Seq<u8>, pos: int) -> Option<(Payload, int)> {
    if pos < 0 || pos >= b.len() {
        None
    } else {
        let t = b[pos];
        if t == 0 {
            Some((Payload::Home, pos + 1))
        } else if t == 1 {
            match parse_control(b, pos + 1) {
                Some((c, e)) => Some((Payload::Control(c), e)),
                None => None,
            }
        } else if t == 2 {
            match parse_settings(b, pos + 1) {
                Some((s, e)) => Some((Payload::Settings(s), e)),
                None => None,
            }
        } else if t == 3 {
            match parse_admin(b, pos + 1) {
                Some((a, e)) => Some((Payload::Admin(a), e)),
                None => None,
            }
        } else if t == 4 {
            Some((Payload::InDev, pos + 1))
        } else {
            None
        }
    }
}

/// The payload whose binary form is exactly `b`, if any.
pub open spec fn parse_payload(b: Seq<u8>) -> Option<Payload> {
    match parse_payload_at(b, 0) {
        Some((p, e)) => if e == b.len() {
            Some(p)
        } else {
            None
        },
        None => None,
    }
}

// ---------------------------------------------------------------------------
// The binary form is read back exactly, and only from itself.

proof fn lemma_tag(b: Seq<u8>, pos: int, t: u8, rest: Seq<u8>)
    requires
        holds_at(b, pos, seq![t] + rest),
    ensures
        0 <= pos < b.len(),
        b[pos] == t,
        holds_at(b, pos + 1, rest),
{
    lemma_holds_split(b, pos, seq![t], rest);
    assert(b[pos] == b.subrange(pos, pos + 1)[0]);
}

proof fn lemma_tag_join(b: Seq<u8>, pos: int, t: u8, rest: Seq<u8>)
    requires
        0 <= pos < b.len(),
        b[pos] == t,
        holds_at(b, pos + 1, rest),
    ensures
        holds_at(b, pos, seq![t] + rest),
{
    assert(b.subrange(pos, pos + 1) =~= seq![t]);
    lemma_holds_join(b, pos, seq![t], rest);
}

proof fn lemma_tag_only(b: Seq<u8>, pos: int, t: u8)
    requires
        0 <= pos < b.len(),
        b[pos] == t,
    ensures
        holds_at(b, pos, seq![t]),
{
    assert(b.subrange(pos, pos + 1) =~= seq![t]);
}

proof fn lemma_i64_round(b: Seq<u8>, pos: int, x: i64)
    requires
        holds_at(b, pos, i64_bytes(x)),
    ensures
        parse_i64(b, pos) == Some((x, pos + i64_bytes(x).len())),
{
    lemma_zigzag_i64(x as int);
    lemma_varint_parse(b, pos, zigzag(x as int), U64_MAX as nat);
}

proof fn lemma_i64_canon(b: Seq<u8>, pos: int)
    ensures
        parse_i64(b, pos) matches Some((x, e)) ==> e == pos + i64_bytes(x).len() && holds_at(
            b,
            pos,
            i64_bytes(x),
        ),
{
    lemma_parse_varint_canonical(b, pos, U64_MAX as nat);
    if let Some((u, e)) = parse_varint(b, pos, U64_MAX as nat) {
        lemma_unzigzag(u);
    }
}

proof fn lemma_u32_round(b: Seq<u8>, pos: int, x: u32)
    requires
        holds_at(b, pos, u32_bytes(x)),
    ensures
        parse_u32(b, pos) == Some((x, pos + u32_bytes(x).len())),
{
    lemma_varint_parse(b, pos, x as nat, U32_MAX as nat);
}

proof fn lemma_u32_canon(b: Seq<u8>, pos: int)
    ensures
        parse_u32(b, pos) matches Some((x, e)) ==> e == pos + u32_bytes(x).len() && holds_at(
            b,
            pos,
            u32_bytes(x),
        ),
{
    lemma_parse_varint_canonical(b, pos, U32_MAX as nat);
}

proof fn lemma_i32_round(b: Seq<u8>, pos: int, x: i32)
    requires
        holds_at(b, pos, i32_bytes(x)),
    ensures
        parse_i32(b, pos) == Some((x, pos + i32_bytes(x).len())),
{
    lemma_zigzag_i32(x as int);
    lemma_varint_parse(b, pos, zigzag(x as int), U32_MAX as nat);
}

proof fn lemma_i32_canon(b: Seq<u8>, pos: int)
    ensures
        parse_i32(b, pos) matches Some((x, e)) ==> e == pos + i32_bytes(x).len() && holds_at(
            b,
            pos,
            i32_bytes(x),
        ),
{
    lemma_parse_varint_canonical(b, pos, U32_MAX as nat);
    if let Some((u, e)) = parse_varint(b, pos, U32_MAX as nat) {
        lemma_unzigzag(u);
    }
}

proof fn lemma_pair_round(b: Seq<u8>, pos: int, room: i64, device: i64)
    requires
        holds_at(b, pos, pair_bytes(room, device)),
    ensures
        parse_pair(b, pos) == Some((room, device, pos + pair_bytes(room, device).len())),
{
    lemma_holds_split(b, pos, i64_bytes(room), i64_bytes(device));
    lemma_i64_round(b, pos, room);
    lemma_i64_round(b, pos + i64_bytes(room).len(), device);
}

proof fn lemma_pair_canon(b: Seq<u8>, pos: int)
    ensures
        parse_pair(b, pos) matches Some((room, device, e)) ==> e == pos + pair_bytes(
            room,
            device,
        ).len() && holds_at(b, pos, pair_bytes(room, device)),
{
    lemma_i64_canon(b, pos);
    if let Some((room, e1)) = parse_i64(b, pos) {
        lemma_i64_canon(b, e1);
        if let Some((device, e2)) = parse_i64(b, e1) {
            lemma_holds_join(b, pos, i64_bytes(room), i64_bytes(device));
        }
    }
}

proof fn lemma_cmd_round(b: Seq<u8>, pos: int, c: DeviceCmd)
    requires
        holds_at(b, pos, cmd_bytes(c)),
    ensures
        parse_cmd(b, pos) == Some((c, pos + cmd_bytes(c).len())),
{
    match c {
        DeviceCmd::SetLevel(v) => {
            lemma_tag(b, pos, 3u8, seq![v]);
            assert(b[pos + 1] == b.subrange(pos + 1, pos + 2)[0]);
        },
        DeviceCmd::SetTemp(w) => {
            lemma_tag(b, pos, 4u8, le32(w));
            lemma_le32(b, pos + 1, w);
        },
        DeviceCmd::ShowChart { h, o } => {
            lemma_tag(b, pos, 5u8, u32_bytes(h) + i32_bytes(o));
            lemma_holds_split(b, pos + 1, u32_bytes(h), i32_bytes(o));
            lemma_u32_round(b, pos + 1, h);
            lemma_i32_round(b, pos + 1 + u32_bytes(h).len(), o);
        },
        _ => {
            assert(b[pos] == b.subrange(pos, pos + 1)[0]);
        },
    }
}

proof fn lemma_cmd_canon(b: Seq<u8>, pos: int)
    ensures
        parse_cmd(b, pos) matches Some((c, e)) ==> e == pos + cmd_bytes(c).len() && holds_at(
            b,
            pos,
            cmd_bytes(c),
        ),
{
    if 0 <= pos < b.len() {
        let t = b[pos];
        if t == 3 {
            if pos + 1 < b.len() {
                lemma_tag_only(b, pos + 1, b[pos + 1]);
                lemma_tag_join(b, pos, 3u8, seq![b[pos + 1]]);
            }
        } else if t == 4 {
            lemma_le32_canonical(b, pos + 1);
            if let Some((w, e)) = parse_le32(b, pos + 1) {
                lemma_tag_join(b, pos, 4u8, le32(w));
            }
        } else if t == 5 {
            lemma_u32_canon(b, pos + 1);
            if let Some((h, e1)) = parse_u32(b, pos + 1) {
                lemma_i32_canon(b, e1);
                if let Some((o, e2)) = parse_i32(b, e1) {
                    lemma_holds_join(b, pos + 1, u32_bytes(h), i32_bytes(o));
                    lemma_tag_join(b, pos, 5u8, u32_bytes(h) + i32_bytes(o));
                }
            }
        } else {
            lemma_tag_only(b, pos, t);
        }
    }
}

proof fn lemma_control_round(b: Seq<u8>, pos: int, c: ControlPayload)
    requires
        holds_at(b, pos, control_bytes(c)),
    ensures
        parse_control(b, pos) == Some((c, pos + control_bytes(c).len())),
{
    match c {
        ControlPayload::ListRooms => {
            assert(b[pos] == b.subrange(pos, pos + 1)[0]);
        },
        ControlPayload::RoomDetail { room } => {
            lemma_tag(b, pos, 1u8, i64_bytes(room));
            lemma_i64_round(b, pos + 1, room);
        },
        ControlPayload::DeviceControl { room, device } => {
            lemma_tag(b, pos, 2u8, pair_bytes(room, device));
            lemma_pair_round(b, pos + 1, room, device);
        },
        ControlPayload::QuickAction { room, device, cmd } => {
            lemma_tag(b, pos, 3u8, pair_bytes(room, device) + cmd_bytes(cmd));
            lemma_holds_split(b, pos + 1, pair_bytes(room, device), cmd_bytes(cmd));
            lemma_pair_round(b, pos + 1, room, device);
            lemma_cmd_round(b, pos + 1 + pair_bytes(room, device).len(), cmd);
        },
    }
}

proof fn lemma_control_canon(b: Seq<u8>, pos: int)
    ensures
        parse_control(b, pos) matches Some((c, e)) ==> e == pos + control_bytes(c).len()
            && holds_at(b, pos, control_bytes(c)),
{
    if 0 <= pos < b.len() {
        let t = b[pos];
        if t == 1 {
            lemma_i64_canon(b, pos + 1);
            if let Some((room, e)) = parse_i64(b, pos + 1) {
                lemma_tag_join(b, pos, 1u8, i64_bytes(room));
            }
        } else if t == 2 {
            lemma_pair_canon(b, pos + 1);
            if let Some((room, device, e)) = parse_pair(b, pos + 1) {
                lemma_tag_join(b, pos, 2u8, pair_bytes(room, device));
            }
        } else if t == 3 {
            lemma_pair_canon(b, pos + 1);
            if let Some((room, device, e1)) = parse_pair(b, pos + 1) {
                lemma_cmd_canon(b, e1);
                if let Some((cmd, e2)) = parse_cmd(b, e1) {
                    lemma_holds_join(b, pos + 1, pair_bytes(room, device), cmd_bytes(cmd));
                    lemma_tag_join(b, pos, 3u8, pair_bytes(room, device) + cmd_bytes(cmd));
                }
            }
        } else {
            lemma_tag_only(b, pos, t);
        }
    }
}

proof fn lemma_settings_round(b: Seq<u8>, pos: int, s: SettingsPayload)
    requires
        holds_at(b, pos, settings_bytes(s)),
    ensures
        parse_settings(b, pos) == Some((s, pos + settings_bytes(s).len())),
{
    match s {
        SettingsPayload::ListRooms => {
            assert(b[pos] == b.subrange(pos, pos + 1)[0]);
        },
        SettingsPayload::RoomDetail { room } => {
            lemma_tag(b, pos, 1u8, i64_bytes(room));
            lemma_i64_round(b, pos + 1, room);
        },
        SettingsPayload::DeviceDetail { room, device } => {
            lemma_tag(b, pos, 2u8, pair_bytes(room, device));
            lemma_pair_round(b, pos + 1, room, device);
        },
        SettingsPayload::ToggleNotify { room, device } => {
            lemma_tag(b, pos, 3u8, pair_bytes(room, device));
            lemma_pair_round(b, pos + 1, room, device);
        },
        SettingsPayload::ToggleHide { room, device } => {
            lemma_tag(b, pos, 4u8, pair_bytes(room, device));
            lemma_pair_round(b, pos + 1, room, device);
        },
        SettingsPayload::EditName { room, device } => {
            lemma_tag(b, pos, 5u8, pair_bytes(room, device));
            lemma_pair_round(b, pos + 1, room, device);
        },
    }
}

proof fn lemma_settings_canon(b: Seq<u8>, pos: int)
    ensures
        parse_settings(b, pos) matches Some((s, e)) ==> e == pos + settings_bytes(s).len()
            && holds_at(b, pos, settings_bytes(s)),
{
    if 0 <= pos < b.len() {
        let t = b[pos];
        if t == 1 {
            lemma_i64_canon(b, pos + 1);
            if let Some((room, e)) = parse_i64(b, pos + 1) {
                lemma_tag_join(b, pos, 1u8, i64_bytes(room));
            }
        } else if 2 <= t <= 5 {
            lemma_pair_canon(b, pos + 1);
            if let Some((room, device, e)) = parse_pair(b, pos + 1) {
                lemma_tag_join(b, pos, t, pair_bytes(room, device));
            }
        } else {
            lemma_tag_only(b, pos, t);
        }
    }
}

proof fn lemma_admin_round(b: Seq<u8>, pos: int, a: AdminPayload)
    requires
        holds_at(b, pos, admin_bytes(a)),
    ensures
        parse_admin(b, pos) == Some((a, pos + admin_bytes(a).len())),
{
    match a {
        AdminPayload::AddUser { id } => {
            lemma_tag(b, pos, 2u8, u32_bytes(id));
            lemma_u32_round(b, pos + 1, id);
        },
        AdminPayload::DeleteUser { id } => {
            lemma_tag(b, pos, 3u8, u32_bytes(id));
            lemma_u32_round(b, pos + 1, id);
        },
        _ => {
            assert(b[pos] == b.subrange(pos, pos + 1)[0]);
        },
    }
}

proof fn lemma_admin_canon(b: Seq<u8>, pos: int)
    ensures
        parse_admin(b, pos) matches Some((a, e)) ==> e == pos + admin_bytes(a).len() && holds_at(
            b,
            pos,
            admin_bytes(a),
        ),
{
    if 0 <= pos < b.len() {
        let t = b[pos];
        if t == 2 || t == 3 {
            lemma_u32_canon(b, pos + 1);
            if let Some((id, e)) = parse_u32(b, pos + 1) {
                lemma_tag_join(b, pos, t, u32_bytes(id));
            }
        } else {
            lemma_tag_only(b, pos, t);
        }
    }
}

proof fn lemma_payload_round(b: Seq<u8>, pos: int, p: Payload)
    requires
        holds_at(b, pos, payload_bytes(p)),
    ensures
        parse_payload_at(b, pos) == Some((p, pos + payload_bytes(p).len())),
{
    match p {
        Payload::Control(c) => {
            lemma_tag(b, pos, 1u8, control_bytes(c));
            lemma_control_round(b, pos + 1, c);
        },
        Payload::Settings(s) => {
            lemma_tag(b, pos, 2u8, settings_bytes(s));
            lemma_settings_round(b, pos + 1, s);
        },
        Payload::Admin(a) => {
            lemma_tag(b, pos, 3u8, admin_bytes(a));
            lemma_admin_round(b, pos + 1, a);
        },
        _ => {
            assert(b[pos] == b.subrange(pos, pos + 1)[0]);
        },
    }
}

proof fn lemma_payload_canon(b: Seq<u8>, pos: int)
    ensures
        parse_payload_at(b, pos) matches Some((p, e)) ==> e == pos + payload_bytes(p).len()
            && holds_at(b, pos, payload_bytes(p)),
{
    if 0 <= pos < b.len() {
        let t = b[pos];
        if t == 1 {
            lemma_control_canon(b, pos + 1);
            if let Some((c, e)) = parse_control(b, pos + 1) {
                lemma_tag_join(b, pos, 1u8, control_bytes(c));
            }
        } else if t == 2 {
            lemma_settings_canon(b, pos + 1);
            if let Some((s, e)) = parse_settings(b, pos + 1) {
                lemma_tag_join(b, pos, 2u8, settings_bytes(s));
            }
        } else if t == 3 {
            lemma_admin_canon(b, pos + 1);
            if let Some((a, e)) = parse_admin(b, pos + 1) {
                lemma_tag_join(b, pos, 3u8, admin_bytes(a));
            }
        } else {
            lemma_tag_only(b, pos, t);
        }
    }
}

/// The binary form of every payload is read back as that payload, and a byte
/// string is read as a payload only when it is that payload's binary form.
pub proof fn lemma_binary_form_exact(p: Payload, b: Seq<u8>)
    ensures
        parse_payload(payload_bytes(p)) == Some(p),
        parse_payload(b) == Some(p) <==> payload_bytes(p) == b,
        parse_payload(b) is Some <==> is_payload_encoding(b),
{
    let pb = payload_bytes(p);
    assert(pb.subrange(0, pb.len() as int) =~= pb);
    lemma_payload_round(pb, 0, p);
    lemma_payload_canon(b, 0);
    if let Some((q, e)) = parse_payload_at(b, 0) {
        if e == b.len() {
            assert(b.subrange(0, b.len() as int) =~= b);
        }
    }
    if is_payload_encoding(b) {
        let q = choose|q: Payload| payload_bytes(q) == b;
        let qb = payload_bytes(q);
        assert(qb.subrange(0, qb.len() as int) =~= qb);
        lemma_payload_round(qb, 0, q);
    }
}

/// No strict prefix of a payload's binary form is read as a payload: a cut
/// binary form is always rejected.
pub proof fn lemma_truncated_rejected(q: Payload, k: int)
    requires
        0 <= k < payload_bytes(q).len(),
    ensures
        parse_payload(payload_bytes(q).take(k)) is None,
{
    let qb = payload_bytes(q);
    let cut = qb.take(k);
    if let Some(p) = parse_payload(cut) {
        lemma_binary_form_exact(p, cut);
        assert(payload_bytes(p) == cut);
        assert(qb.subrange(0, cut.len() as int) =~= cut);
        lemma_payload_round(qb, 0, p);
        assert(qb.subrange(0, qb.len() as int) =~= qb);
        lemma_payload_round(qb, 0, q);
    }
}

proof fn lemma_pair_len(room: i64, device: i64)
    ensures
        pair_bytes(room, device).len() <= 20,
{
    lemma_zigzag_i64(room as int);
    lemma_zigzag_i64(device as int);
    lemma_varint_len(zigzag(room as int));
    lemma_varint_len(zigzag(device as int));
}

/// No binary form is longer than 33 bytes.
pub proof fn lemma_payload_len(p: Payload)
    ensures
        1 <= payload_bytes(p).len() <= 33,
{
    match p {
        Payload::Control(c) => match c {
            ControlPayload::RoomDetail { room } => {
                lemma_pair_len(room, room);
            },
            ControlPayload::DeviceControl { room, device } => {
                lemma_pair_len(room, device);
            },
            ControlPayload::QuickAction { room, device, cmd } => {
                lemma_pair_len(room, device);
                if let DeviceCmd::ShowChart { h, o } = cmd {
                    lemma_varint_len(h as nat);
                    lemma_zigzag_i32(o as int);
                    lemma_varint_len(zigzag(o as int));
                }
            },
            _ => {},
        },
        Payload::Settings(s) => match s {
            SettingsPayload::ListRooms => {},
            SettingsPayload::RoomDetail { room } => {
                lemma_pair_len(room, room);
            },
            SettingsPayload::DeviceDetail { room, device } => {
                lemma_pair_len(room, device);
            },
            SettingsPayload::ToggleNotify { room, device } => {
                lemma_pair_len(room, device);
            },
            SettingsPayload::ToggleHide { room, device } => {
                lemma_pair_len(room, device);
            },
            SettingsPayload::EditName { room, device } => {
                lemma_pair_len(room, device);
            },
        },
        Payload::Admin(a) => match a {
            AdminPayload::AddUser { id } => {
                lemma_varint_len(id as nat);
            },
            AdminPayload::DeleteUser { id } => {
                lemma_varint_len(id as nat);
            },
            _ => {},
        },
        _ => {},
    }
}

// ---------------------------------------------------------------------------
// Writing and reading the binary form.

fn write_i64(out: &mut Vec<u8>, x: i64)
    ensures
        final(out)@ == old(out)@ + i64_bytes(x),
{
    write_varint(out, zigzag_i64(x));
}

fn write_pair(out: &mut Vec<u8>, room: i64, device: i64)
    ensures
        final(out)@ == old(out)@ + pair_bytes(room, device),
{
    write_i64(out, room);
    write_i64(out, device);
    assert(final(out)@ =~= old(out)@ + pair_bytes(room, device));
}

fn write_cmd(out: &mut Vec<u8>, c: DeviceCmd)
    ensures
        final(out)@ == old(out)@ + cmd_bytes(c),
{
    match c {
        DeviceCmd::Toggle => out.push(0),
        DeviceCmd::TurnOn => out.push(1),
        DeviceCmd::TurnOff => out.push(2),
        DeviceCmd::SetLevel(v) => {
            out.push(3);
            out.push(v);
        },
        DeviceCmd::SetTemp(w) => {
            out.push(4);
            write_le32(out, w);
        },
        DeviceCmd::ShowChart { h, o } => {
            out.push(5);
            write_varint(out, h as u64);
            write_varint(out, zigzag_i32(o));
        },
        DeviceCmd::EnterManualInput => out.push(6),
    }
    assert(final(out)@ =~= old(out)@ + cmd_bytes(c));
}

fn write_control(out: &mut Vec<u8>, c: ControlPayload)
    ensures
        final(out)@ == old(out)@ + control_bytes(c),
{
    match c {
        ControlPayload::ListRooms => out.push(0),
        ControlPayload::RoomDetail { room } => {
            out.push(1);
            write_i64(out, room);
        },
        ControlPayload::DeviceControl { room, device } => {
            out.push(2);
            write_pair(out, room, device);
        },
        ControlPayload::QuickAction { room, device, cmd } => {
            out.push(3);
            write_pair(out, room, device);
            write_cmd(out, cmd);
        },
    }
    assert(final(out)@ =~= old(out)@ + control_bytes(c));
}

fn write_settings(out: &mut Vec<u8>, s: SettingsPayload)
    ensures
        final(out)@ == old(out)@ + settings_bytes(s),
{
    match s {
        SettingsPayload::ListRooms => out.push(0),
        SettingsPayload::RoomDetail { room } => {
            out.push(1);
            write_i64(out, room);
        },
        SettingsPayload::DeviceDetail { room, device } => {
            out.push(2);
            write_pair(out, room, device);
        },
        SettingsPayload::ToggleNotify { room, device } => {
            out.push(3);
            write_pair(out, room, device);
        },
        SettingsPayload::ToggleHide { room, device } => {
            out.push(4);
            write_pair(out, room, device);
        },
        SettingsPayload::EditName { room, device } => {
            out.push(5);
            write_pair(out, room, device);
        },
    }
    assert(final(out)@ =~= old(out)@ + settings_bytes(s));
}

fn write_admin(out: &mut Vec<u8>, a: AdminPayload)
    ensures
        final(out)@ == old(out)@ + admin_bytes(a),
{
    match a {
        AdminPayload::ListActions => out.push(0),
        AdminPayload::ListUsers => out.push(1),
        AdminPayload::AddUser { id } => {
            out.push(2);
            write_varint(out, id as u64);
        },
        AdminPayload::DeleteUser { id } => {
            out.push(3);
            write_varint(out, id as u64);
        },
    }
    assert(final(out)@ =~= old(out)@ + admin_bytes(a));
}

fn read_i64(b: &[u8], pos: usize) -> (r: Option<(i64, usize)>)
    ensures
        match r {
            Some((x, e)) => parse_i64(b@, pos as int) == Some((x, e as int)),
            None => parse_i64(b@, pos as int) is None,
        },
{
    match read_varint(b, pos, U64_MAX) {
        Some((u, e)) => {
            let x = unzigzag_i64(u);
            Some((x, e))
        },
        None => None,
    }
}

fn read_u32(b: &[u8], pos: usize) -> (r: Option<(u32, usize)>)
    ensures
        match r {
            Some((x, e)) => parse_u32(b@, pos as int) == Some((x, e as int)),
            None => parse_u32(b@, pos as int) is None,
        },
{
    match read_varint(b, pos, U32_MAX) {
        Some((u, e)) => {
            proof {
                lemma_parse_varint_canonical(b@, pos as int, U32_MAX as nat);
            }
            Some((u as u32, e))
        },
        None => None,
    }
}

fn read_i32(b: &[u8], pos: usize) -> (r: Option<(i32, usize)>)
    ensures
        match r {
            Some((x, e)) => parse_i32(b@, pos as int) == Some((x, e as int)),
            None => parse_i32(b@, pos as int) is None,
        },
{
    match read_varint(b, pos, U32_MAX) {
        Some((u, e)) => {
            proof {
                lemma_parse_varint_canonical(b@, pos as int, U32_MAX as nat);
            }
            Some((unzigzag_i32(u), e))
        },
        None => None,
    }
}

fn read_pair(b: &[u8], pos: usize) -> (r: Option<(i64, i64, usize)>)
    ensures
        match r {
            Some((room, device, e)) => parse_pair(b@, pos as int) == Some(
                (room, device, e as int),
            ),
            None => parse_pair(b@, pos as int) is None,
        },
{
    match read_i64(b, pos) {
        Some((room, e1)) => match read_i64(b, e1) {
            Some((device, e2)) => Some((room, device, e2)),
            None => None,
        },
        None => None,
    }
}

fn read_cmd(b: &[u8], pos: usize) -> (r: Option<(DeviceCmd, usize)>)
    ensures
        match r {
            Some((c, e)) => parse_cmd(b@, pos as int) == Some((c, e as int)),
            None => parse_cmd(b@, pos as int) is None,
        },
{
    if pos >= b.len() {
        return None;
    }
    let t = b[pos];
    if t == 0 {
        Some((DeviceCmd::Toggle, pos + 1))
    } else if t == 1 {
        Some((DeviceCmd::TurnOn, pos + 1))
    } else if t == 2 {
        Some((DeviceCmd::TurnOff, pos + 1))
    } else if t == 3 {
        if pos + 1 < b.len() {
            Some((DeviceCmd::SetLevel(b[pos + 1]), pos + 2))
        } else {
            None
        }
    } else if t == 4 {
        match read_le32(b, pos + 1) {
            Some((w, e)) => Some((DeviceCmd::SetTemp(w), e)),
            None => None,
        }
    } else if t == 5 {
        match read_u32(b, pos + 1) {
            Some((h, e1)) => match read_i32(b, e1) {
                Some((o, e2)) => Some((DeviceCmd::ShowChart { h, o }, e2)),
                None => None,
            },
            None => None,
        }
    } else if t == 6 {
        Some((DeviceCmd::EnterManualInput, pos + 1))
    } else {
        None
    }
}

fn read_control(b: &[u8], pos: usize) -> (r: Option<(ControlPayload, usize)>)
    ensures
        match r {
            Some((c, e)) => parse_control(b@, pos as int) == Some((c, e as int)),
            None => parse_control(b@, pos as int) is None,
        },
{
    if pos >= b.len() {
        return None;
    }
    let t = b[pos];
    if t == 0 {
        Some((ControlPayload::ListRooms, pos + 1))
    } else if t == 1 {
        match read_i64(b, pos + 1) {
            Some((room, e)) => Some((ControlPayload::RoomDetail { room }, e)),
            None => None,
        }
    } else if t == 2 {
        match read_pair(b, pos + 1) {
            Some((room, device, e)) => Some((ControlPayload::DeviceControl { room, device }, e)),
            None => None,
        }
    } else if t == 3 {
        match read_pair(b, pos + 1) {
            Some((room, device, e1)) => match read_cmd(b, e1) {
                Some((cmd, e2)) => Some((ControlPayload::QuickAction { room, device, cmd }, e2)),
                None => None,
            },
            None => None,
        }
    } else {
        None
    }
}

fn read_settings(b: &[u8], pos: usize) -> (r: Option<(SettingsPayload, usize)>)
    ensures
        match r {
            Some((s, e)) => parse_settings(b@, pos as int) == Some((s, e as int)),
            None => parse_settings(b@, pos as int) is None,
        },
{
    if pos >= b.len() {
        return None;
    }
    let t = b[pos];
    if t == 0 {
        Some((SettingsPayload::ListRooms, pos + 1))
    } else if t == 1 {
        match read_i64(b, pos + 1) {
            Some((room, e)) => Some((SettingsPayload::RoomDetail { room }, e)),
            None => None,
        }
    } else if 2 <= t && t <= 5 {
        match read_pair(b, pos + 1) {
            Some((room, device, e)) => {
                let s = if t == 2 {
                    SettingsPayload::DeviceDetail { room, device }
                } else if t == 3 {
                    SettingsPayload::ToggleNotify { room, device }
                } else if t == 4 {
                    SettingsPayload::ToggleHide { room, device }
                } else {
                    SettingsPayload::EditName { room, device }
                };
                Some((s, e))
            },
            None => None,
        }
    } else {
        None
    }
}

fn read_admin(b: &[u8], pos: usize) -> (r: Option<(AdminPayload, usize)>)
    ensures
        match r {
            Some((a, e)) => parse_admin(b@, pos as int) == Some((a, e as int)),
            None => parse_admin(b@, pos as int) is None,
        },
{
    if pos >= b.len() {
        return None;
    }
    let t = b[pos];
    if t == 0 {
        Some((AdminPayload::ListActions, pos + 1))
    } else if t == 1 {
        Some((AdminPayload::ListUsers, pos + 1))
    } else if t == 2 {
        match read_u32(b, pos + 1) {
            Some((id, e)) => Some((AdminPayload::AddUser { id }, e)),
            None => None,
        }
    } else if t == 3 {
        match read_u32(b, pos + 1) {
            Some((id, e)) => Some((AdminPayload::DeleteUser { id }, e)),
            None => None,
        }
    } else {
        None
    }
}

// ---------------------------------------------------------------------------
// The text form.

/// The base64 text (URL-safe alphabet, no padding) of a byte string.
pub uninterp spec fn base64_text(b: Seq<u8>) -> Seq<char>;

/// The bytes that a text stands for in base64 (URL-safe alphabet, no
/// padding), or `None` where it is not such a text.
pub uninterp spec fn base64_bytes(s: Seq<char>) -> Option<Seq<u8>>;

/// A character of the URL-safe base64 alphabet: letters, digits, `-` and `_`.
pub open spec fn is_url_safe_char(c: char) -> bool {
    ('A' <= c && c <= 'Z') || ('a' <= c && c <= 'z') || ('0' <= c && c <= '9') || c == '-' || c
        == '_'
}

/// Relies on base64's `Engine::encode` with `URL_SAFE_NO_PAD`: four characters
/// for each three bytes, two or three for a last one or two, no padding.
#[verifier::external_body]
fn encode_base64(b: &[u8]) -> (r: String)
    ensures
        r@ == base64_text(b@),
        r@.len() == (4 * b@.len() + 2) / 3,
        r.is_ascii(),
        forall|i: int| 0 <= i < r@.len() ==> is_url_safe_char(#[trigger] r@[i]),
{
    base64::engine::general_purpose::URL_SAFE_NO_PAD.encode(b)
}

/// Relies on base64's `Engine::decode` with `URL_SAFE_NO_PAD`: it gives back
/// the bytes of any text that `Engine::encode` made with the same engine, and
/// the empty byte string for the empty text.
#[verifier::external_body]
fn decode_base64(s: &str) -> (r: Option<Vec<u8>>)
    ensures
        r matches Some(v) ==> base64_bytes(s@) == Some(v@),
        r is None <==> base64_bytes(s@) is None,
        forall|b: Seq<u8>| #[trigger] base64_text(b) == s@ ==> (r is Some && r->0@ == b),
        s@.len() == 0 ==> (r is Some && r->0@.len() == 0),
{
    base64::engine::general_purpose::URL_SAFE_NO_PAD.decode(s).ok()
}

/// The payload that a text stands for, if any.
pub open spec fn text_payload(s: Seq<char>) -> Option<Payload> {
    match base64_bytes(s) {
        Some(b) => parse_payload(b),
        None => None,
    }
}

/// The text form of a payload.
pub open spec fn payload_text(p: Payload) -> Seq<char> {
    base64_text(payload_bytes(p))
}

impl Payload {
    /// The binary form of this payload.
    pub fn to_bytes(&self) -> (r: Vec<u8>)
        ensures
            r@ == payload_bytes(*self),
            1 <= r@.len() <= 33,
    {
        let mut out: Vec<u8> = Vec::new();
        match *self {
            Payload::Home => out.push(0),
            Payload::Control(c) => {
                out.push(1);
                write_control(&mut out, c);
            },
            Payload::Settings(s) => {
                out.push(2);
                write_settings(&mut out, s);
            },
            Payload::Admin(a) => {
                out.push(3);
                write_admin(&mut out, a);
            },
            Payload::InDev => out.push(4),
        }
        assert(out@ =~= payload_bytes(*self));
        proof {
            lemma_payload_len(*self);
        }
        out
    }

    /// Reads a binary form back; fails on any byte string that is not the
    /// binary form of a payload.
    pub fn from_bytes(b: &[u8]) -> (r: Option<Payload>)
        ensures
            r == parse_payload(b@),
            r matches Some(p) ==> payload_bytes(p) == b@,
            r is Some <==> is_payload_encoding(b@),
            forall|p: Payload| #[trigger] payload_bytes(p) == b@ ==> r == Some(p),
    {
        let r = if b.len() == 0 {
            None
        } else {
            let t = b[0];
            let at = if t == 0 {
                Some((Payload::Home, 1))
            } else if t == 1 {
                match read_control(b, 1) {
                    Some((c, e)) => Some((Payload::Control(c), e)),
                    None => None,
                }
            } else if t == 2 {
                match read_settings(b, 1) {
                    Some((s, e)) => Some((Payload::Settings(s), e)),
                    None => None,
                }
            } else if t == 3 {
                match read_admin(b, 1) {
                    Some((a, e)) => Some((Payload::Admin(a), e)),
                    None => None,
                }
            } else if t == 4 {
                Some((Payload::InDev, 1))
            } else {
                None
            };
            match at {
                Some((p, e)) => if e == b.len() {
                    Some(p)
                } else {
                    None
                },
                None => None,
            }
        };
        proof {
            if let Some(p) = r {
                lemma_binary_form_exact(p, b@);
            } else {
                if is_payload_encoding(b@) {
                    let q = choose|q: Payload| payload_bytes(q) == b@;
                    lemma_binary_form_exact(q, b@);
                }
            }
            assert forall|p: Payload| #[trigger] payload_bytes(p) == b@ implies r == Some(p) by {
                lemma_binary_form_exact(p, b@);
            }
        }
        r
    }

    /// The text form of this payload, short enough for a button's callback data.
    pub fn to_string(&self) -> (r: String)
        ensures
            r@ == payload_text(*self),
            1 <= r@.len() <= MAX_CALLBACK_LEN,
            r.is_ascii(),
            forall|i: int| 0 <= i < r@.len() ==> is_url_safe_char(#[trigger] r@[i]),
    {
        let bytes = self.to_bytes();
        encode_base64(bytes.as_slice())
    }

    /// Reads a text form back. The text form of a payload gives that payload;
    /// any other text gives an error.
    pub fn from_string(s: &str) -> (r: Result<Payload, DecodeError>)
        ensures
            r matches Ok(p) ==> base64_bytes(s@) == Some(payload_bytes(p)),
            r matches Ok(p) ==> text_payload(s@) == Some(p),
            r is Ok <==> text_payload(s@) is Some,
            r == Err::<Payload, DecodeError>(DecodeError::NotBase64) <==> base64_bytes(s@) is None,
            r == Err::<Payload, DecodeError>(DecodeError::Malformed) <==> (base64_bytes(
                s@,
            ) matches Some(b) && !is_payload_encoding(b)),
            forall|p: Payload| #[trigger] payload_text(p) == s@ ==> r == Ok::<Payload, DecodeError>(p),
            s@.len() == 0 ==> r is Err,
    {
        match decode_base64(s) {
            None => Err(DecodeError::NotBase64),
            Some(bytes) => match Payload::from_bytes(bytes.as_slice()) {
                Some(p) => {
                    proof {
                        lemma_binary_form_exact(p, bytes@);
                    }
                    Ok(p)
                },
                None => Err(DecodeError::Malformed),
            },
        }
    }
}

} // verus!
