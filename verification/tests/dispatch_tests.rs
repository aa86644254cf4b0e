use flasher_stub::checksum::checksum;
use flasher_stub::dispatch::Action;
use flasher_stub::dispatch::DeviceFault;
use flasher_stub::dispatch::DeviceOutcome;
use flasher_stub::dispatch::Dispatcher;
use flasher_stub::dispatch::Step;
use flasher_stub::dispatch::hex_encode;
use flasher_stub::proto::BeginCommand;
use flasher_stub::proto::ChangeBaudrateCommand;
use flasher_stub::proto::Command;
use flasher_stub::proto::CommandBase;
use flasher_stub::proto::CommandCode;
use flasher_stub::proto::DataCommand;
use flasher_stub::proto::Direction;
use flasher_stub::proto::EndFlashCommand;
use flasher_stub::proto::EraseRegionCommand;
use flasher_stub::proto::Error;
use flasher_stub::proto::MemEndCommand;
use flasher_stub::proto::ReadFlashCommand;
use flasher_stub::proto::ReadFlashParams;
use flasher_stub::proto::ReadRegCommand;
use flasher_stub::proto::Response;
use flasher_stub::proto::SyncCommand;

fn base(code: CommandCode, size: u16, chk: u32) -> CommandBase {
    CommandBase { direction: Direction::In, code, size, checksum: chk }
}

fn flash_begin(total_size: u32, packet_count: u32, packet_size: u32, offset: u32) -> Command {
    Command::FlashBegin(BeginCommand {
        base: base(CommandCode::FlashBegin, 16, 0),
        total_size,
        packet_count,
        packet_size,
        offset,
    })
}

fn flash_data(seq: u32, payload: Vec<u8>, chk: u32) -> Command {
    Command::FlashData(
        DataCommand {
            base: base(CommandCode::FlashData, 16 + payload.len() as u16, chk),
            size: payload.len() as u32,
            sequence_num: seq,
            reserved0: 0,
            reserved1: 0,
        },
        payload,
    )
}

fn flash_end(raw: u32) -> Command {
    Command::FlashEnd(EndFlashCommand {
        base: base(CommandCode::FlashEnd, 4, 0),
        reboot: raw != 0,
    })
}

#[test]
fn sync_magic_accepted_and_rejected() {
    let mut d = Dispatcher::new();
    let mut payload = vec![0x07, 0x07, 0x12, 0x20];
    payload.extend_from_slice(&[0x55; 32]);
    let cmd = Command::Sync(SyncCommand { base: base(CommandCode::Sync, 36, 0), payload });
    match d.dispatch(&cmd) {
        Step::Reply(r) => {
            assert_eq!(r.status, 0);
            assert_eq!(r.command, CommandCode::Sync);
        },
        other => panic!("unexpected step: {:?}", other),
    }
    let mut payload = vec![0x07, 0x07, 0x12, 0x21];
    payload.extend_from_slice(&[0x55; 32]);
    let cmd = Command::Sync(SyncCommand { base: base(CommandCode::Sync, 36, 0), payload });
    match d.dispatch(&cmd) {
        Step::Reply(r) => {
            assert_eq!(r.status, 1);
            assert_eq!(r.error, 0xC3);
        },
        other => panic!("unexpected step: {:?}", other),
    }
}

#[test]
fn flash_write_session_happy_path() {
    // FlashBegin(total_size=4096, packet_count=1, packet_size=4096,
    // offset=0x1000): erase authorized with (0x1000, 4096); then
    // FlashData(seq=0, 4096 bytes, valid checksum): write authorized with
    // (0x1000, payload), status 0; then FlashEnd(raw=0): should_reboot,
    // session closes, status 0.
    let mut d = Dispatcher::new();
    match d.dispatch(&flash_begin(4096, 1, 4096, 0x1000)) {
        Step::Act(Action::Erase { address, size }) => {
            assert_eq!(address, 0x1000);
            assert_eq!(size, 4096);
        },
        other => panic!("unexpected step: {:?}", other),
    }
    let begin = flash_begin(4096, 1, 4096, 0x1000);
    let r = d.device_result(&begin, DeviceOutcome::Done { value: 0, data: vec![] });
    assert_eq!(r.status, 0);

    let payload = vec![0x5A; 4096];
    let chk = checksum(&payload) as u32;
    let data_cmd = flash_data(0, payload.clone(), chk);
    match d.dispatch(&data_cmd) {
        Step::Act(Action::WriteFlash { address, data }) => {
            assert_eq!(address, 0x1000);
            assert_eq!(data, payload);
        },
        other => panic!("unexpected step: {:?}", other),
    }
    let r = d.device_result(&data_cmd, DeviceOutcome::Done { value: 0, data: vec![] });
    assert_eq!(r.status, 0);

    match d.dispatch(&flash_end(0)) {
        Step::ReplyAndAct(r, Action::Finalize { reboot }) => {
            assert_eq!(r.status, 0);
            assert!(reboot);
        },
        other => panic!("unexpected step: {:?}", other),
    }
}

#[test]
fn flash_data_out_of_order_rejected() {
    // the same session, but the packet with seq=1 arrives first: status 1,
    // error BadDataLen, session discarded
    let mut d = Dispatcher::new();
    match d.dispatch(&flash_begin(4096, 1, 4096, 0x1000)) {
        Step::Act(Action::Erase { .. }) => {},
        other => panic!("unexpected step: {:?}", other),
    }
    let payload = vec![0x5A; 4096];
    let chk = checksum(&payload) as u32;
    match d.dispatch(&flash_data(1, payload.clone(), chk)) {
        Step::Reply(r) => {
            assert_eq!(r.status, 1);
            assert_eq!(r.error, Error::BadDataLen.code());
        },
        other => panic!("unexpected step: {:?}", other),
    }
    // the session is gone: a correctly-numbered packet now finds no session
    match d.dispatch(&flash_data(0, payload, chk)) {
        Step::Reply(r) => {
            assert_eq!(r.status, 1);
            assert_eq!(r.error, Error::NotInFlashMode.code());
        },
        other => panic!("unexpected step: {:?}", other),
    }
}

#[test]
fn flash_data_bad_checksum_rejected() {
    let mut d = Dispatcher::new();
    d.dispatch(&flash_begin(16, 1, 16, 0));
    let mut payload = vec![0xA5; 16];
    let chk = checksum(&payload) as u32;
    payload[3] ^= 0x10; // one tampered bit, stale checksum
    match d.dispatch(&flash_data(0, payload, chk)) {
        Step::Reply(r) => {
            assert_eq!(r.status, 1);
            assert_eq!(r.error, Error::BadDataChecksum.code());
        },
        other => panic!("unexpected step: {:?}", other),
    }
}

#[test]
fn flash_data_oversized_payload_rejected() {
    let mut d = Dispatcher::new();
    d.dispatch(&flash_begin(8192, 4, 16, 0));
    let payload = vec![1u8; 17]; // one byte over packet_size
    let chk = checksum(&payload) as u32;
    match d.dispatch(&flash_data(0, payload, chk)) {
        Step::Reply(r) => {
            assert_eq!(r.status, 1);
            assert_eq!(r.error, Error::TooMuchData.code());
        },
        other => panic!("unexpected step: {:?}", other),
    }
}

#[test]
fn flash_begin_zero_sizes_rejected() {
    let mut d = Dispatcher::new();
    match d.dispatch(&flash_begin(0, 1, 16, 0)) {
        Step::Reply(r) => assert_eq!(r.error, Error::BadDataLen.code()),
        other => panic!("unexpected step: {:?}", other),
    }
    match d.dispatch(&flash_begin(16, 1, 0, 0)) {
        Step::Reply(r) => assert_eq!(r.error, Error::BadBlocksize.code()),
        other => panic!("unexpected step: {:?}", other),
    }
}

#[test]
fn begin_while_writing_discards_old_session() {
    let mut d = Dispatcher::new();
    d.dispatch(&flash_begin(4096, 2, 2048, 0x1000));
    // a second Begin opens a fresh session at another offset
    match d.dispatch(&flash_begin(1024, 1, 1024, 0x8000)) {
        Step::Act(Action::Erase { address, size }) => {
            assert_eq!(address, 0x8000);
            assert_eq!(size, 1024);
        },
        other => panic!("unexpected step: {:?}", other),
    }
    // data goes to the new session's offset, not the old one's
    let payload = vec![7u8; 1024];
    let chk = checksum(&payload) as u32;
    match d.dispatch(&flash_data(0, payload, chk)) {
        Step::Act(Action::WriteFlash { address, .. }) => assert_eq!(address, 0x8000),
        other => panic!("unexpected step: {:?}", other),
    }
}

#[test]
fn flash_end_with_missing_packets_rejected() {
    let mut d = Dispatcher::new();
    d.dispatch(&flash_begin(4096, 2, 2048, 0));
    match d.dispatch(&flash_end(1)) {
        Step::Reply(r) => {
            assert_eq!(r.status, 1);
            assert_eq!(r.error, Error::BadDataLen.code());
        },
        other => panic!("unexpected step: {:?}", other),
    }
}

#[test]
fn erase_failure_reported_and_session_torn_down() {
    let mut d = Dispatcher::new();
    let begin = flash_begin(4096, 1, 4096, 0);
    d.dispatch(&begin);
    let r = d.device_result(&begin, DeviceOutcome::Failed(DeviceFault::Spi));
    assert_eq!(r.status, 1);
    assert_eq!(r.error, Error::FailedSpiOp.code());
    // the session did not survive the failed erase
    let payload = vec![0u8; 16];
    let chk = checksum(&payload) as u32;
    match d.dispatch(&flash_data(0, payload, chk)) {
        Step::Reply(r) => assert_eq!(r.error, Error::NotInFlashMode.code()),
        other => panic!("unexpected step: {:?}", other),
    }
}

#[test]
fn mem_end_jumps_when_asked() {
    let mut d = Dispatcher::new();
    let begin = Command::MemBegin(BeginCommand {
        base: base(CommandCode::MemBegin, 16, 0),
        total_size: 8,
        packet_count: 1,
        packet_size: 8,
        offset: 0x4000_0000,
    });
    match d.dispatch(&begin) {
        Step::Reply(r) => assert_eq!(r.status, 0),
        other => panic!("unexpected step: {:?}", other),
    }
    let payload = vec![1, 2, 3, 4, 5, 6, 7, 8];
    let chk = checksum(&payload) as u32;
    let data_cmd = Command::MemData(
        DataCommand {
            base: base(CommandCode::MemData, 24, chk),
            size: 8,
            sequence_num: 0,
            reserved0: 0,
            reserved1: 0,
        },
        payload,
    );
    match d.dispatch(&data_cmd) {
        Step::Act(Action::WriteMem { address, .. }) => assert_eq!(address, 0x4000_0000),
        other => panic!("unexpected step: {:?}", other),
    }
    let mem_end = Command::MemEnd(MemEndCommand {
        base: base(CommandCode::MemEnd, 8, 0),
        stay_in_stub: 0,
        entrypoint: 0x4008_1234,
    });
    match d.dispatch(&mem_end) {
        Step::ReplyAndAct(r, Action::Jump { entrypoint }) => {
            assert_eq!(r.status, 0);
            assert_eq!(entrypoint, 0x4008_1234);
        },
        other => panic!("unexpected step: {:?}", other),
    }
}

#[test]
fn read_reg_value_comes_back() {
    let mut d = Dispatcher::new();
    let cmd = Command::ReadReg(ReadRegCommand {
        base: base(CommandCode::ReadReg, 4, 0),
        address: 0x6000_0000,
    });
    match d.dispatch(&cmd) {
        Step::Act(Action::RegRead { address }) => assert_eq!(address, 0x6000_0000),
        other => panic!("unexpected step: {:?}", other),
    }
    let r = d.device_result(&cmd, DeviceOutcome::Done { value: 0xCAFE_F00D, data: vec![] });
    assert_eq!(r.status, 0);
    assert_eq!(r.value, 0xCAFE_F00D);
}

#[test]
fn md5_digest_reported_as_ascii_hex() {
    let mut d = Dispatcher::new();
    let cmd = Command::SpiFlashMd5(flasher_stub::proto::SpiFlashMd5Command {
        base: base(CommandCode::SpiFlashMd5, 16, 0),
        address: 0,
        size: 16,
        reserved0: 0,
        reserved1: 0,
    });
    match d.dispatch(&cmd) {
        Step::Act(Action::Md5 { address, size }) => {
            assert_eq!(address, 0);
            assert_eq!(size, 16);
        },
        other => panic!("unexpected step: {:?}", other),
    }
    let digest = vec![0x00, 0x1F, 0xA0, 0xFF];
    let r = d.device_result(&cmd, DeviceOutcome::Done { value: 0, data: digest });
    assert_eq!(r.status, 0);
    assert_eq!(r.data, b"001fa0ff".to_vec());
    assert_eq!(r.size, 10);
}

#[test]
fn hex_encode_exact() {
    assert_eq!(hex_encode(&[]), Vec::<u8>::new());
    assert_eq!(hex_encode(&[0xDE, 0xAD, 0xBE, 0xEF]), b"deadbeef".to_vec());
    assert_eq!(hex_encode(&[0x09, 0x0A]), b"090a".to_vec());
}

#[test]
fn erase_region_alignment_checked() {
    let mut d = Dispatcher::new();
    let mk = |address: u32, size: u32| {
        Command::EraseRegion(EraseRegionCommand {
            base: base(CommandCode::EraseRegion, 8, 0),
            address,
            size,
        })
    };
    match d.dispatch(&mk(0x1001, 0x1000)) {
        Step::Reply(r) => assert_eq!(r.error, 0x32),
        other => panic!("unexpected step: {:?}", other),
    }
    match d.dispatch(&mk(0x1000, 0x0FFF)) {
        Step::Reply(r) => assert_eq!(r.error, 0x33),
        other => panic!("unexpected step: {:?}", other),
    }
    match d.dispatch(&mk(0x1000, 0x2000)) {
        Step::Act(Action::EraseRegion { address, size }) => {
            assert_eq!(address, 0x1000);
            assert_eq!(size, 0x2000);
        },
        other => panic!("unexpected step: {:?}", other),
    }
}

#[test]
fn change_baudrate_replies_before_switching() {
    let mut d = Dispatcher::new();
    let cmd = Command::ChangeBaudrate(ChangeBaudrateCommand {
        base: base(CommandCode::ChangeBaudrate, 8, 0),
        new: 921_600,
        old: 115_200,
    });
    match d.dispatch(&cmd) {
        Step::ReplyAndAct(r, Action::SetBaud { new_rate, old_rate }) => {
            assert_eq!(r.status, 0);
            assert_eq!(new_rate, 921_600);
            assert_eq!(old_rate, 115_200);
        },
        other => panic!("unexpected step: {:?}", other),
    }
}

#[test]
fn unsupported_commands_not_implemented() {
    let mut d = Dispatcher::new();
    let cmd = Command::Unsupported(base(CommandCode::EraseFlash, 0, 0));
    match d.dispatch(&cmd) {
        Step::Reply(r) => {
            assert_eq!(r.command, CommandCode::EraseFlash);
            assert_eq!(r.status, 1);
            assert_eq!(r.error, 0xFF);
        },
        other => panic!("unexpected step: {:?}", other),
    }
}

#[test]
fn read_flash_window_paces_exactly_eight_packets() {
    // ReadFlash(address=0, total_size=8192, packet_size=1024,
    // max_in_flight=2): at most two packets in flight at any point, and
    // exactly eight packets of 1024 bytes in all
    let mut d = Dispatcher::new();
    let cmd = Command::ReadFlash(ReadFlashCommand {
        base: base(CommandCode::ReadFlash, 16, 0),
        params: ReadFlashParams {
            address: 0,
            total_size: 8192,
            packet_size: 1024,
            max_in_flight: 2,
        },
    });
    match d.dispatch(&cmd) {
        Step::Reply(r) => assert_eq!(r.status, 0),
        other => panic!("unexpected step: {:?}", other),
    }
    let mut packets: Vec<(u64, u32)> = Vec::new();
    let mut unacked: u32 = 0;
    loop {
        match d.read_next() {
            Some(chunk) => {
                packets.push(chunk);
                unacked += 1;
                assert!(unacked <= 2);
            },
            None => {
                if unacked == 0 {
                    break;
                }
                // window full (or done): the host acknowledges one packet
                d.read_ack();
                unacked -= 1;
            },
        }
    }
    assert_eq!(packets.len(), 8);
    for (i, (addr, len)) in packets.iter().enumerate() {
        assert_eq!(*addr, (i as u64) * 1024);
        assert_eq!(*len, 1024);
    }
    // the final response closes the transfer exactly once
    let closing = d.read_finish().expect("transfer must close");
    assert_eq!(closing.status, 0);
    assert_eq!(closing.command, CommandCode::ReadFlash);
    assert!(d.read_finish().is_none());
}

#[test]
fn read_flash_short_tail_packet() {
    let mut d = Dispatcher::new();
    let cmd = Command::ReadFlash(ReadFlashCommand {
        base: base(CommandCode::ReadFlash, 16, 0),
        params: ReadFlashParams {
            address: 0x100,
            total_size: 2500,
            packet_size: 1024,
            max_in_flight: 4,
        },
    });
    d.dispatch(&cmd);
    let mut packets: Vec<(u64, u32)> = Vec::new();
    while let Some(chunk) = d.read_next() {
        packets.push(chunk);
        d.read_ack();
    }
    assert_eq!(packets, vec![(0x100, 1024), (0x500, 1024), (0x900, 452)]);
    assert!(d.read_finish().is_some());
}

#[test]
fn read_flash_zero_params_rejected() {
    let mut d = Dispatcher::new();
    let mk = |packet_size: u32, max_in_flight: u32| {
        Command::ReadFlash(ReadFlashCommand {
            base: base(CommandCode::ReadFlash, 16, 0),
            params: ReadFlashParams { address: 0, total_size: 64, packet_size, max_in_flight },
        })
    };
    match d.dispatch(&mk(0, 2)) {
        Step::Reply(r) => assert_eq!(r.error, Error::BadBlocksize.code()),
        other => panic!("unexpected step: {:?}", other),
    }
    match d.dispatch(&mk(64, 0)) {
        Step::Reply(r) => assert_eq!(r.error, Error::InvalidCommand.code()),
        other => panic!("unexpected step: {:?}", other),
    }
}

#[test]
fn response_builders() {
    let mut r = Response::new(CommandCode::ReadReg);
    assert_eq!(r.direction, Direction::Out);
    assert_eq!(r.size, 2);
    assert_eq!(r.status, 0);
    assert_eq!(r.error, 0);
    assert_eq!(r.value, 0);
    assert!(r.data.is_empty());
    r.value(42);
    assert_eq!(r.value, 42);
    r.data(&[1, 2, 3]);
    assert_eq!(r.size, 5);
    r.error(Error::NotInFlashMode);
    assert_eq!(r.status, 1);
    assert_eq!(r.error, 0xC6);
}

#[test]
fn handle_frame_end_to_end() {
    let mut d = Dispatcher::new();
    let mut b = vec![0x00, 0x02];
    b.extend_from_slice(&16u16.to_le_bytes());
    b.extend_from_slice(&0u32.to_le_bytes());
    for v in [4096u32, 1, 4096, 0x1000] {
        b.extend_from_slice(&v.to_le_bytes());
    }
    match d.handle_frame(&b) {
        Step::Act(Action::Erase { address, size }) => {
            assert_eq!(address, 0x1000);
            assert_eq!(size, 4096);
        },
        other => panic!("unexpected step: {:?}", other),
    }
}

#[test]
fn handle_frame_never_stays_silent() {
    let mut d = Dispatcher::new();
    // too short for a header, but the code byte is readable and echoed
    match d.handle_frame(&[0x00, 0x02]) {
        Step::Reply(r) => {
            assert_eq!(r.command, CommandCode::FlashBegin);
            assert_eq!(r.status, 1);
            assert_eq!(r.error, Error::NotEnoughData.code());
        },
        other => panic!("unexpected step: {:?}", other),
    }
    // too short for even the code byte: answered on the Sync code
    match d.handle_frame(&[0x00]) {
        Step::Reply(r) => {
            assert_eq!(r.command, CommandCode::Sync);
            assert_eq!(r.status, 1);
            assert_eq!(r.error, Error::NotEnoughData.code());
        },
        other => panic!("unexpected step: {:?}", other),
    }
    // unknown code byte
    let b = vec![0x00, 0xEE, 0, 0, 0, 0, 0, 0];
    match d.handle_frame(&b) {
        Step::Reply(r) => {
            assert_eq!(r.command, CommandCode::Sync);
            assert_eq!(r.error, Error::InvalidCommand.code());
        },
        other => panic!("unexpected step: {:?}", other),
    }
    // known code with the wrong body length: the code is echoed
    let b = vec![0x00, 0x0A, 7, 0, 0, 0, 0, 0, 1, 2, 3, 4, 5, 6, 7];
    match d.handle_frame(&b) {
        Step::Reply(r) => {
            assert_eq!(r.command, CommandCode::ReadReg);
            assert_eq!(r.status, 1);
            assert_eq!(r.error, Error::BadDataLen.code());
        },
        other => panic!("unexpected step: {:?}", other),
    }
}

#[test]
fn flash_data_more_packets_than_declared_rejected() {
    let mut d = Dispatcher::new();
    d.dispatch(&flash_begin(64, 1, 32, 0));
    let payload = vec![3u8; 32];
    let chk = checksum(&payload) as u32;
    match d.dispatch(&flash_data(0, payload.clone(), chk)) {
        Step::Act(Action::WriteFlash { .. }) => {},
        other => panic!("unexpected step: {:?}", other),
    }
    // the declared packet count is exhausted: a second packet is an
    // ordering fault even with the right sequence number
    match d.dispatch(&flash_data(1, payload, chk)) {
        Step::Reply(r) => assert_eq!(r.error, Error::BadDataLen.code()),
        other => panic!("unexpected step: {:?}", other),
    }
}

#[test]
fn flash_data_past_total_size_rejected() {
    let mut d = Dispatcher::new();
    d.dispatch(&flash_begin(48, 4, 32, 0));
    let payload = vec![9u8; 32];
    let chk = checksum(&payload) as u32;
    match d.dispatch(&flash_data(0, payload.clone(), chk)) {
        Step::Act(Action::WriteFlash { .. }) => {},
        other => panic!("unexpected step: {:?}", other),
    }
    // 32 of 48 bytes are in; another 32 would overrun the declared total
    match d.dispatch(&flash_data(1, payload, chk)) {
        Step::Reply(r) => assert_eq!(r.error, Error::TooMuchData.code()),
        other => panic!("unexpected step: {:?}", other),
    }
}

#[test]
fn read_ack_with_empty_window_ignored() {
    let mut d = Dispatcher::new();
    let cmd = Command::ReadFlash(ReadFlashCommand {
        base: base(CommandCode::ReadFlash, 16, 0),
        params: ReadFlashParams { address: 0, total_size: 10, packet_size: 10, max_in_flight: 1 },
    });
    d.dispatch(&cmd);
    d.read_ack(); // nothing in flight yet: a stray ack changes nothing
    assert_eq!(d.read_next(), Some((0, 10)));
    assert_eq!(d.read_next(), None); // window of one is full
    d.read_ack();
    assert!(d.read_finish().is_some());
}
