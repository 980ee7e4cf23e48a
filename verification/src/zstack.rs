//! Frame parser for the serial protocol of a radio co-processor.
//!
//! A frame is a start byte `0xfe`, a one-byte data length, a two-byte
//! command identifier, the data bytes, and a one-byte XOR checksum
//! over everything after the start byte.

use vstd::prelude::*;

verus! {

/// Why a buffer does not hold a complete frame.
#[derive(Clone, Copy, Debug, PartialEq, Eq, Structural)]
pub enum ParseError {
    /// More bytes are needed before the frame can be judged.
    Incomplete,
    /// The buffer does not begin with the start byte.
    BadStartByte,
}

/// One parsed frame.
#[derive(Clone, Debug, PartialEq)]
pub struct Message {
    /// The command identifier, as sent on the wire: high byte first.
    pub command_id: [u8; 2],
    pub data: Vec<u8>,
    pub check: u8,
}

/// The XOR of all bytes of `s`.
pub open spec fn xor_of(s: Seq<u8>) -> u8
    decreases s.len(),
{
    if s.len() == 0 {
        0
    } else {
        xor_of(s.drop_last()) ^ s.last()
    }
}

/// Whether `src` begins with a complete frame: start byte, length,
/// two command bytes, the declared data bytes, and the check byte.
pub open spec fn spec_frame_complete(src: Seq<u8>) -> bool {
    src.len() >= 2 && src.len() >= 5 + src[1]
}

/// The number of bytes the frame at the front of `src` occupies.
pub open spec fn spec_frame_len(src: Seq<u8>) -> int {
    5 + src[1]
}

impl Message {
    /// The checksum over a frame's length byte, command identifier
    /// and data, folded together with the frame's own check byte: a
    /// sound frame folds to zero.
    pub open spec fn spec_check_fold(self) -> u8 {
        xor_of(
            seq![self.command_id@[0], self.command_id@[1], self.data@.len() as u8] + self.data@
                + seq![self.check],
        )
    }

    /// Parses one frame from the front of `src`, returning it and the
    /// number of bytes consumed. Too few bytes for the declared
    /// length is `Incomplete`; a wrong start byte is `BadStartByte`.
    pub fn parse(src: &[u8]) -> (r: Result<(Message, usize), ParseError>)
        ensures
            match r {
                Ok(p) => {
                    &&& src@.len() >= 1 && src@[0] == 0xfe
                    &&& spec_frame_complete(src@)
                    &&& p.1 == spec_frame_len(src@)
                    &&& p.0.command_id@ =~= seq![src@[2], src@[3]]
                    &&& p.0.data@ =~= src@.subrange(4, 4 + src@[1])
                    &&& p.0.check == src@[4 + src@[1]]
                },
                Err(ParseError::BadStartByte) => src@.len() >= 1 && src@[0] != 0xfe,
                Err(ParseError::Incomplete) => src@.len() == 0 || (src@[0] == 0xfe
                    && !spec_frame_complete(src@)),
            },
    {
        if src.len() == 0 {
            return Err(ParseError::Incomplete);
        }
        if src[0] != 0xfe {
            return Err(ParseError::BadStartByte);
        }
        if src.len() < 2 {
            return Err(ParseError::Incomplete);
        }
        let len = src[1] as usize;
        if src.len() < 5 + len {
            return Err(ParseError::Incomplete);
        }
        let command_id: [u8; 2] = [src[2], src[3]];
        let mut data: Vec<u8> = Vec::new();
        let mut i: usize = 0;
        while i < len
            invariant
                i <= len,
                len <= 255,
                src@.len() >= 5 + len,
                data@ =~= src@.subrange(4, 4 + i as int),
            decreases len - i,
        {
            data.push(src[4 + i]);
            proof {
                assert(data@ =~= src@.subrange(4, 4 + (i + 1)));
            }
            i += 1;
        }
        let check = src[4 + len];
        Ok((Message { command_id, data, check }, 5 + len))
    }

    /// Folds the checksum; a frame whose bytes arrived unharmed folds
    /// to zero.
    pub fn verify(&self) -> (r: Result<(), ()>)
        ensures
            r is Ok <==> self.spec_check_fold() == 0,
    {
        let ghost whole = seq![
            self.command_id@[0],
            self.command_id@[1],
            self.data@.len() as u8,
        ] + self.data@ + seq![self.check];
        let mut check: u8 = 0;
        proof {
            let c0 = self.command_id@[0];
            assert(0u8 ^ c0 == c0) by (bit_vector);
        }
        check = check ^ self.command_id[0];
        proof {
            assert(seq![self.command_id@[0]].drop_last() =~= Seq::<u8>::empty());
            assert(xor_of(Seq::<u8>::empty()) == 0);
            assert(xor_of(seq![self.command_id@[0]]) == self.command_id@[0]);
            assert(seq![self.command_id@[0], self.command_id@[1]].drop_last() =~= seq![
                self.command_id@[0],
            ]);
            assert(check == xor_of(seq![self.command_id@[0]]));
        }
        check = check ^ self.command_id[1];
        let ghost pre = seq![self.command_id@[0], self.command_id@[1], self.data@.len() as u8];
        proof {
            assert(check == xor_of(seq![self.command_id@[0], self.command_id@[1]]));
            assert(pre.drop_last() =~= seq![self.command_id@[0], self.command_id@[1]]);
        }
        check = check ^ (self.data.len() as u8);
        proof {
            assert(check == xor_of(pre));
        }
        let mut i: usize = 0;
        while i < self.data.len()
            invariant
                i <= self.data@.len(),
                pre == seq![self.command_id@[0], self.command_id@[1], self.data@.len() as u8],
                check == xor_of(pre + self.data@.take(i as int)),
            decreases self.data@.len() - i,
        {
            let ghost before = pre + self.data@.take(i as int);
            check = check ^ self.data[i];
            proof {
                assert((pre + self.data@.take(i + 1)).drop_last() =~= before);
                assert((pre + self.data@.take(i + 1)).last() == self.data@[i as int]);
            }
            i += 1;
        }
        proof {
            assert(pre + self.data@.take(self.data@.len() as int) =~= pre + self.data@);
        }
        check = check ^ self.check;
        proof {
            assert(whole.drop_last() =~= pre + self.data@);
            assert(check == xor_of(whole));
        }
        if check == 0 {
            Ok(())
        } else {
            Err(())
        }
    }

    /// The command type carried in the top three bits of the first
    /// command byte.
    pub fn cmd_type(&self) -> (r: Result<CmdType, ()>)
        ensures
            r == CmdType::spec_try_from(self.command_id@[0] >> 5),
    {
        CmdType::try_from(self.command_id[0] >> 5)
    }

    /// The subsystem carried in the low five bits of the first
    /// command byte.
    pub fn subsystem(&self) -> (r: Result<Subsystem, ()>)
        ensures
            r == Subsystem::spec_try_from(self.command_id@[0] & 0x1f),
    {
        Subsystem::try_from(self.command_id[0] & 0x1f)
    }

    /// The command number: the second command byte.
    pub fn cmd_id(&self) -> (r: u8)
        ensures
            r == self.command_id@[1],
    {
        self.command_id[1]
    }
}

/// How a command travels: polled, as a request, or as a response.
#[derive(Clone, Copy, Debug, PartialEq, Eq, Structural)]
pub enum CmdType {
    Poll,
    SyncRequest,
    AsyncRequest,
    SyncResponse,
}

impl CmdType {
    pub open spec fn spec_try_from(value: u8) -> Result<CmdType, ()> {
        if value == 0x00 {
            Ok(CmdType::Poll)
        } else if value == 0x01 {
            Ok(CmdType::SyncRequest)
        } else if value == 0x02 {
            Ok(CmdType::AsyncRequest)
        } else if value == 0x03 {
            Ok(CmdType::SyncResponse)
        } else {
            Err(())
        }
    }

    pub fn try_from(value: u8) -> (r: Result<CmdType, ()>)
        ensures
            r == CmdType::spec_try_from(value),
    {
        match value {
            0x00 => Ok(CmdType::Poll),
            0x01 => Ok(CmdType::SyncRequest),
            0x02 => Ok(CmdType::AsyncRequest),
            0x03 => Ok(CmdType::SyncResponse),
            _ => Err(()),
        }
    }
}

/// The subsystem a command belongs to.
#[derive(Clone, Copy, Debug, PartialEq, Eq, Structural)]
pub enum Subsystem {
    Sys,
    Mac,
    Nwk,
    Af,
    Zdo,
    Sapi,
    Util,
    Debug,
    App,
    AppConfig,
    GreenPower,
}

impl Subsystem {
    pub open spec fn spec_try_from(value: u8) -> Result<Subsystem, ()> {
        if value == 0x01 {
            Ok(Subsystem::Sys)
        } else if value == 0x02 {
            Ok(Subsystem::Mac)
        } else if value == 0x03 {
            Ok(Subsystem::Nwk)
        } else if value == 0x04 {
            Ok(Subsystem::Af)
        } else if value == 0x05 {
            Ok(Subsystem::Zdo)
        } else if value == 0x06 {
            Ok(Subsystem::Sapi)
        } else if value == 0x07 {
            Ok(Subsystem::Util)
        } else if value == 0x08 {
            Ok(Subsystem::Debug)
        } else if value == 0x09 {
            Ok(Subsystem::App)
        } else if value == 0x0f {
            Ok(Subsystem::AppConfig)
        } else if value == 0x15 {
            Ok(Subsystem::GreenPower)
        } else {
            Err(())
        }
    }

    pub fn try_from(value: u8) -> (r: Result<Subsystem, ()>)
        ensures
            r == Subsystem::spec_try_from(value),
    {
        match value {
            0x01 => Ok(Subsystem::Sys),
            0x02 => Ok(Subsystem::Mac),
            0x03 => Ok(Subsystem::Nwk),
            0x04 => Ok(Subsystem::Af),
            0x05 => Ok(Subsystem::Zdo),
            0x06 => Ok(Subsystem::Sapi),
            0x07 => Ok(Subsystem::Util),
            0x08 => Ok(Subsystem::Debug),
            0x09 => Ok(Subsystem::App),
            0x0f => Ok(Subsystem::AppConfig),
            0x15 => Ok(Subsystem::GreenPower),
            _ => Err(()),
        }
    }
}

} // verus!
