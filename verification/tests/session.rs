use libstuhfl::data_types::{
    Antenna, BasicReader, Builder, Connection, ConnectionHolder, Epc, HexID, InventoryStatistics,
    InventoryTag, MemoryBank, Password, ProtocolReader, TuningAlgorithm, TuningStatus, Version,
    VersionNum,
};
use libstuhfl::error::Error;
use libstuhfl::gen2::{
    ConfigureOutcome, ConfigureRequest, Gen2Cfg, Gen2CustomCommand, Gen2CustomCommandData,
    Gen2Reader, RoundVerdict,
};
use libstuhfl::reader::{is_reader_port, DummyReader, Reader};
use libstuhfl::wire;

type TestResult = Result<(), Error>;

/// Room for tags in the buffer that the tests hand to the chip.
const TAG_LIST_SIZE: u16 = 64;

/// The serial port of the pretended chip.
const PORT: &str = "/dev/ttyUSB0";

/// A tag in the field of the pretended chip.
struct FakeTag {
    epc: Vec<u8>,
    tid: Vec<u8>,
    user: Vec<u8>,
}

/// A chip that answers from memory. It keeps a list of every request that
/// reached it.
struct FakeChip {
    log: Vec<&'static str>,
    refuse: Option<(usize, Error)>,
    tags: Vec<FakeTag>,
    selected: Option<usize>,
    antenna: Antenna,
    tuned: Option<(Antenna, TuningAlgorithm, bool)>,
    stopped: bool,
}

impl FakeChip {
    fn new() -> Self {
        let epc_a = vec![0xE2, 0x00, 0x42, 0x16, 0x61, 0x80, 0x60, 0x15, 0x00, 0x95, 0x18, 0x38];
        let epc_b = vec![0x30, 0x08, 0x33, 0xB2, 0xDD, 0xD9, 0x01, 0x40, 0x00, 0x00, 0x00, 0x01];
        let mut user = vec![0u8; 512];
        user[2 * 0xEC] = 0xBE;
        user[2 * 0xEC + 1] = 0xEF;
        FakeChip {
            log: Vec::new(),
            refuse: None,
            tags: vec![
                FakeTag { epc: epc_a, tid: vec![0xE2, 0x80, 0x11, 0x05], user: user.clone() },
                FakeTag { epc: epc_b, tid: vec![0xE0, 0x01, 0x02, 0x03], user },
            ],
            selected: None,
            antenna: Antenna::Antenna1,
            tuned: None,
            stopped: false,
        }
    }

    fn refusing(at: usize, error: Error) -> Self {
        let mut chip = FakeChip::new();
        chip.refuse = Some((at, error));
        chip
    }

    fn status(&mut self, name: &'static str) -> Error {
        let place = self.log.len();
        self.log.push(name);
        match self.refuse {
            Some((at, error)) if at == place => error,
            _ => Error::NoError,
        }
    }

    fn push(&mut self, request: &ConfigureRequest) -> Error {
        let name = match request {
            ConfigureRequest::SetTxRxCfg(w) => {
                self.antenna = w.used_antenna;
                "Set_TxRxCfg"
            }
            ConfigureRequest::SetGen2InventoryCfg(_) => "Set_Gen2_InventoryCfg",
            ConfigureRequest::SetGen2ProtocolCfg(_) => "Set_Gen2_ProtocolCfg",
            ConfigureRequest::SetFreqLbt(_) => "Set_FreqLBT",
            ConfigureRequest::SetChannelList(_) => "Set_ChannelList",
            ConfigureRequest::SetFreqHop(_) => "Set_FreqHop",
            ConfigureRequest::Gen2Select(w) => {
                assert_eq!(w.mode, wire::SelectMode::ClearList);
                self.selected = None;
                "Gen2_Select"
            }
        };
        self.status(name)
    }

    fn raw_tag(&self, slot: usize) -> wire::InventoryTag {
        let tag = &self.tags[slot];
        let mut epc = tag.epc.clone();
        epc.resize(32, 0xEE);
        wire::InventoryTag {
            slot_id: slot as u32,
            timestamp: 10 * slot as u32,
            antenna: self.antenna,
            agc: 3,
            rssi_log_i: 9,
            rssi_log_q: 8,
            rssi_lin_i: -7,
            rssi_lin_q: 6,
            pc: [0x30, 0x00],
            xpc: wire::TagId { data: vec![0xEE; 4], length: 0 },
            epc: wire::TagId { data: epc, length: tag.epc.len() as u8 },
            tid: wire::TagId { data: tag.tid.clone(), length: tag.tid.len() as u8 },
        }
    }

    /// A buffer entry that the chip did not fill: nothing of it may be read.
    fn stale_tag() -> wire::InventoryTag {
        wire::InventoryTag {
            slot_id: 0xDEAD,
            timestamp: 0xDEAD,
            antenna: Antenna::Antenna4,
            agc: 0xFF,
            rssi_log_i: 0xFF,
            rssi_log_q: 0xFF,
            rssi_lin_i: -1,
            rssi_lin_q: -1,
            pc: [0xFF, 0xFF],
            xpc: wire::TagId { data: vec![], length: 200 },
            epc: wire::TagId { data: vec![], length: 200 },
            tid: wire::TagId { data: vec![], length: 200 },
        }
    }

    fn fill(&self, data: &mut wire::InventoryData) {
        data.tag_list.clear();
        for slot in 0..self.tags.len() {
            data.tag_list.push(self.raw_tag(slot));
        }
        while data.tag_list.len() < data.tag_list_size_max as usize {
            data.tag_list.push(FakeChip::stale_tag());
        }
        data.tag_list_size = self.tags.len() as u16;
        data.statistics.tag_cnt = self.tags.len() as u32;
        data.statistics.slot_cnt = 16;
        data.statistics.tuning_status = TuningStatus::Tuned;
    }

    fn gen2_inventory(&mut self, option: &wire::InventoryOption, data: &mut wire::InventoryData) -> Error {
        assert_eq!(option.options, wire::INVENTORYREPORT_OPTION_NONE);
        let status = self.status("Gen2_Inventory");
        if status == Error::NoError {
            self.fill(data);
            data.statistics.round_cnt = 1;
        }
        status
    }

    /// Runs the rounds that are asked for and hands every round to
    /// `on_round`, until it asks to stop.
    fn inventory_runner_start(
        &mut self,
        option: &wire::InventoryOption,
        data: &mut wire::InventoryData,
        on_round: &mut dyn FnMut(&wire::InventoryData) -> RoundVerdict,
    ) -> Error {
        let status = self.status("Inventory_RunnerStart");
        if status != Error::NoError {
            return status;
        }
        self.stopped = false;
        let mut total = 0;
        for round in 0..option.round_cnt {
            self.fill(data);
            total += data.statistics.tag_cnt;
            data.statistics.round_cnt = round + 1;
            let verdict = on_round(data);
            if verdict.stop {
                self.log.push("Inventory_RunnerStop");
                self.stopped = true;
            }
            if verdict.status != Error::NoError || self.stopped {
                break;
            }
        }
        data.statistics.tag_cnt = total;
        Error::NoError
    }

    fn gen2_select(&mut self, sel: &wire::Gen2Select) -> Error {
        let status = self.status("Gen2_Select");
        if status == Error::NoError {
            assert_eq!(sel.mode, wire::SelectMode::ClearAndAdd);
            assert_eq!(sel.target, wire::SelectTarget::Sl);
            assert_eq!(sel.memory_bank, MemoryBank::Epc);
            assert_eq!(sel.mask_bit_pointer, 0x20);
            let bytes = if sel.mask_bit_length == 0xFF { 32 } else { sel.mask_bit_length as usize / 8 };
            self.selected = self.tags.iter().position(|tag| {
                let mut epc = tag.epc.clone();
                epc.resize(32, 0);
                epc[..bytes] == sel.mask[..bytes]
            });
        }
        status
    }

    fn bank(&self, bank: u8) -> Vec<u8> {
        let tag = &self.tags[self.selected.expect("no tag selected")];
        match bank {
            1 => {
                let mut memory = vec![0xC4, 0xC4, 0x30, 0x00];
                memory.extend(&tag.epc);
                memory
            }
            2 => tag.tid.clone(),
            3 => tag.user.clone(),
            _ => vec![0; 8],
        }
    }

    fn gen2_read(&mut self, read: &mut wire::Read) -> Error {
        let status = self.status("Gen2_Read");
        if status == Error::NoError {
            let memory = self.bank(read.memory_bank.code());
            let start = 2 * read.word_ptr as usize;
            let end = (start + read.num_bytes_to_read as usize).min(memory.len());
            let found = &memory[start.min(end)..end];
            read.data[..found.len()].copy_from_slice(found);
            // what lies behind the bytes that were read is not part of the answer
            for b in &mut read.data[found.len()..] {
                *b = 0xEE;
            }
            read.num_read_bytes = found.len() as u8;
        }
        status
    }

    fn gen2_write(&mut self, write: &mut wire::Write) -> Error {
        let status = self.status("Gen2_Write");
        if status == Error::NoError {
            assert_eq!(write.memory_bank, MemoryBank::User);
            let selected = self.selected.expect("no tag selected");
            let start = 2 * write.word_ptr as usize;
            self.tags[selected].user[start..start + 2].copy_from_slice(&write.data);
            write.tag_reply = 0;
        }
        status
    }

    /// Takes the frame of a generic command apart, bit by bit, as a tag
    /// would, and answers it.
    fn gen2_generic_cmd(&mut self, cmd: &mut wire::Gen2GenericCmd) -> Error {
        let status = self.status("Gen2_GenericCmd");
        if status != Error::NoError {
            return status;
        }
        let bits: Vec<bool> = cmd
            .snd_data
            .iter()
            .flat_map(|byte| (0..8).rev().map(move |i| byte >> i & 1 == 1))
            .collect();
        let sent = cmd.snd_data_bit_length as usize;
        assert!(bits[sent..].iter().all(|bit| !bit), "bits behind the frame are set");
        let number = |range: std::ops::Range<usize>| -> u32 {
            bits[range].iter().fold(0, |n, bit| n << 1 | u32::from(*bit))
        };
        let mut answer: Vec<u8> = Vec::new();
        if number(0..8) == 0b1100_0010 {
            // the Read command: bank, word address as an EBV, word count
            let bank = number(8..10) as u8;
            let mut at = 10;
            let mut address: usize = 0;
            loop {
                let block = number(at..at + 8);
                at += 8;
                address = address << 7 | (block & 0x7F) as usize;
                if block & 0x80 == 0 {
                    break;
                }
            }
            let words = number(at..at + 8) as usize;
            at += 8;
            assert_eq!(at, sent, "the frame is longer or shorter than its fields");
            assert_eq!(cmd.expected_rcv_data_bit_length as usize, 16 * words + 16);
            assert_eq!(cmd.cmd, wire::GenericCmdMode::CrcExpectHead);
            let memory = self.bank(bank);
            answer.extend(&memory[2 * address..2 * address + 2 * words]);
        } else {
            let code = number(0..16);
            assert_eq!(code, 0xE000, "unknown command");
            assert_eq!(sent, 16);
            let tag = &self.tags[self.selected.expect("no tag selected")];
            let data_bytes = (cmd.expected_rcv_data_bit_length as usize - 16) / 8;
            for i in 0..data_bytes {
                answer.push(tag.tid[i % tag.tid.len()]);
            }
        }
        if cmd.append_rn16 {
            answer.extend([0x12, 0x34]);
        }
        cmd.rcv_data = [0xEE; 128];
        cmd.rcv_data[..answer.len()].copy_from_slice(&answer);
        cmd.rcv_data_length = answer.len() as u16;
        Error::NoError
    }
}

// -- what a caller does with a chip and the library -----------------------

fn version_of(sw: (u8, u8, u8, u8), hw: (u8, u8, u8, u8)) -> (wire::Version, wire::Version) {
    (
        wire::Version { major: sw.0, minor: sw.1, micro: sw.2, nano: sw.3 },
        wire::Version { major: hw.0, minor: hw.1, micro: hw.2, nano: hw.3 },
    )
}

fn run_get_version<R: BasicReader>(chip: &mut FakeChip, reader: &R) -> Result<Version, Error> {
    let (sw, hw) = version_of((3, 1, 0, 0), (1, 1, 0, 0));
    let numbers = reader.get_version(chip.status("Get_BoardVersion"), sw, hw)?;
    reader.get_version_info(
        numbers,
        chip.status("Get_BoardInfo"),
        "STUHFL SDK Evaluation FW @ STM32L4x6".to_owned(),
        "ST25RU3993-EVAL Board.".to_owned(),
    )
}

fn run_connect(chip: &mut FakeChip) -> Result<Reader, Error> {
    let usable = [false, true, false];
    let port = Reader::autoconnect(&usable)?;
    assert_eq!(port, 1);
    let connection = Connection::new(PORT, chip.status("Connect"))?;
    let (sw, hw) = version_of((3, 1, 0, 0), (1, 1, 0, 0));
    let version = Version {
        sw_ver: VersionNum::from(sw),
        hw_ver: VersionNum::from(hw),
        sw_info: libstuhfl::data_types::VersionInfo { info: String::new() },
        hw_info: libstuhfl::data_types::VersionInfo { info: String::new() },
    };
    Reader::connect(connection, &version)
}

fn run_configure_gen2(chip: &mut FakeChip, reader: Reader, cfg: &Gen2Cfg) -> Result<Gen2Reader, Error> {
    let (mut run, mut request) = reader.configure_gen2(cfg);
    loop {
        let status = chip.push(&request);
        match run.advance(cfg, status) {
            ConfigureOutcome::Next(next, following) => {
                run = next;
                request = following;
            }
            ConfigureOutcome::Done(reader) => return Ok(reader),
            ConfigureOutcome::Failed(error) => return Err(error),
        }
    }
}

fn run_tune(chip: &mut FakeChip, reader: &mut Gen2Reader, algo: TuningAlgorithm) -> TestResult {
    let mut tx_rx_cfg = match reader.tune(algo) {
        None => return Ok(()),
        Some(record) => record,
    };
    let status = chip.status("Get_TxRxCfg");
    tx_rx_cfg.used_antenna = chip.antenna;
    let tune_cfg = reader.tune_request(algo, status, &tx_rx_cfg)?;
    let status = chip.status("TuneChannel");
    if status == Error::NoError {
        chip.tuned = Some((tune_cfg.antenna, tune_cfg.algorithm, tune_cfg.tune_all));
    }
    reader.tune_finish(status)
}

fn run_inventory_once(
    chip: &mut FakeChip,
    reader: &Gen2Reader,
) -> Result<(InventoryStatistics, Vec<InventoryTag>), Error> {
    let (option, mut data) = reader.inventory_once(TAG_LIST_SIZE)?;
    let status = chip.gen2_inventory(&option, &mut data);
    assert!(status != Error::NoError || data.is_found_wf());
    Gen2Reader::inventory_once_result(status, &data)
}

/// Runs a multi-round inventory. `cb` says whether it took the tag and came
/// back: `false` stands for a callback that fails.
fn run_inventory(
    chip: &mut FakeChip,
    reader: &mut Gen2Reader,
    num_rounds: u32,
    cb: &mut dyn FnMut(InventoryTag) -> bool,
) -> Result<InventoryStatistics, Error> {
    let (option, mut data) = reader.inventory(num_rounds, TAG_LIST_SIZE)?;
    let status = chip.inventory_runner_start(&option, &mut data, &mut |round| {
        assert!(round.is_round_wf());
        let completed = match reader.begin_round(round) {
            Some(tags) => tags.into_iter().all(&mut *cb),
            None => false,
        };
        reader.end_round(completed)
    });
    reader.inventory_result(status, data.statistics)
}

fn run_select(chip: &mut FakeChip, reader: &Gen2Reader, epc: &Epc) -> TestResult {
    let request = reader.select(epc)?;
    libstuhfl::helpers::proc_err(chip.gen2_select(&request))
}

fn run_read(
    chip: &mut FakeChip,
    reader: &Gen2Reader,
    bank: MemoryBank,
    word_address: u32,
    num_bytes: u8,
    password: Option<Password>,
) -> Result<Vec<u8>, Error> {
    let mut request = reader.read(bank, word_address, num_bytes, password)?;
    let status = chip.gen2_read(&mut request);
    assert!(request.num_read_bytes as usize <= wire::MAX_READ_DATA_LEN);
    Gen2Reader::read_result(status, &request)
}

fn run_write(
    chip: &mut FakeChip,
    reader: &Gen2Reader,
    bank: MemoryBank,
    word_address: u32,
    data: [u8; 2],
    password: Option<Password>,
) -> TestResult {
    let mut request = reader.write(bank, word_address, data, password)?;
    libstuhfl::helpers::proc_err(chip.gen2_write(&mut request))
}

fn run_read_alt(
    chip: &mut FakeChip,
    reader: &Gen2Reader,
    bank: MemoryBank,
    word_address: u32,
    word_count: u8,
    password: Option<Password>,
) -> Result<Vec<u8>, Error> {
    let mut request = reader.read_alt(bank, word_address, word_count, password)?;
    let status = chip.gen2_generic_cmd(&mut request);
    assert!(status != Error::NoError || (2..=128).contains(&request.rcv_data_length));
    Gen2Reader::read_alt_result(status, &request)
}

fn run_custom_cmd(
    chip: &mut FakeChip,
    reader: &Gen2Reader,
    command: &Gen2CustomCommand,
    data_to_send: Option<Gen2CustomCommandData>,
    bits_to_receive: u16,
    password: Option<Password>,
) -> Result<Vec<u8>, Error> {
    let mut request = reader.custom_cmd(command, data_to_send, bits_to_receive, password)?;
    let status = chip.gen2_generic_cmd(&mut request);
    assert!(request.rcv_data_length <= 128);
    Gen2Reader::custom_cmd_result(status, &request)
}

fn tuned_reader(chip: &mut FakeChip) -> Result<Gen2Reader, Error> {
    let reader = run_connect(chip)?;
    let gen2_config = Gen2Cfg::builder().build().unwrap();
    let mut reader = run_configure_gen2(chip, reader, &gen2_config)?;
    run_tune(chip, &mut reader, TuningAlgorithm::Exact)?;
    Ok(reader)
}

// -- the scenarios ---------------------------------------------------------

#[test]
fn check_reader_version() -> TestResult {
    let mut chip = FakeChip::new();
    let reader = run_connect(&mut chip)?;

    let version = run_get_version(&mut chip, &reader)?;

    println!("Board version: {}", version.to_string());
    assert_eq!(
        version.to_string(),
        "SW: v3.1.0.0, STUHFL SDK Evaluation FW @ STM32L4x6. HW: v1.1.0.0, ST25RU3993-EVAL Board.."
    );
    assert!(reader.test_compatible(&version));

    Ok(())
}

#[test]
fn configure() -> TestResult {
    let mut chip = FakeChip::new();
    let reader = run_connect(&mut chip)?;

    let gen2_config = Gen2Cfg::builder().build().unwrap();

    let mut reader = run_configure_gen2(&mut chip, reader, &gen2_config)?;

    run_tune(&mut chip, &mut reader, TuningAlgorithm::Exact)?;

    assert_eq!(
        chip.log,
        [
            "Connect",
            "Set_TxRxCfg",
            "Set_Gen2_InventoryCfg",
            "Set_Gen2_ProtocolCfg",
            "Set_FreqLBT",
            "Set_ChannelList",
            "Set_FreqHop",
            "Gen2_Select",
            "Get_TxRxCfg",
            "TuneChannel",
        ]
    );
    assert_eq!(chip.tuned, Some((Antenna::Antenna1, TuningAlgorithm::Exact, true)));
    assert!(reader.is_tuned());

    Ok(())
}

#[test]
fn inventory_once() -> TestResult {
    let mut chip = FakeChip::new();
    let reader = tuned_reader(&mut chip)?;

    let (stats, tags) = run_inventory_once(&mut chip, &reader)?;

    println!("Inventory Statistics:{}", stats.to_string());
    println!("Found tags:");
    for tag in &tags {
        println!("{}", tag.epc.to_string());
    }
    assert_eq!(tags.len(), stats.tag_count as usize);
    assert_eq!(tags.len(), 2);
    assert_eq!(tags[0].epc.to_string(), "E2:00:42:16:61:80:60:15:00:95:18:38");
    assert_eq!(tags[1].epc.get_id(), &chip.tags[1].epc[..]);
    assert_eq!(tags[1].slot_id, 1);
    assert_eq!(tags[0].tid.get_id(), &[0xE2u8, 0x80, 0x11, 0x05][..]);
    assert_eq!(stats.slot_count, 16);

    Ok(())
}

#[test]
fn inventory_runner() -> TestResult {
    let mut chip = FakeChip::new();
    let mut reader = tuned_reader(&mut chip)?;

    let mut tags = Vec::new();
    let mut callback = |tag| {
        tags.push(tag);
        true
    };

    let stats = run_inventory(&mut chip, &mut reader, 20, &mut callback)?;

    println!("Inventory Statistics:{}", stats.to_string());
    println!("Found tags:");
    for tag in &tags {
        println!("{}", tag.epc.to_string());
    }
    assert_eq!(stats.round_count, 20);
    assert_eq!(tags.len(), 40);
    assert_eq!(stats.tag_count, 40);
    assert!(!chip.stopped);

    Ok(())
}

#[test]
fn read() -> TestResult {
    let mut chip = FakeChip::new();
    let reader = tuned_reader(&mut chip)?;

    let (stats, tags) = run_inventory_once(&mut chip, &reader)?;
    assert_eq!(stats.tag_count as usize, tags.len());
    assert!(!tags.is_empty());

    println!("Found tags:");
    for tag in tags {
        println!("Found tag {}", tag.epc.to_string());
        run_select(&mut chip, &reader, &tag.epc)?;
        let epc = run_read(&mut chip, &reader, MemoryBank::Epc, 0x02, 12, None)?;
        assert!(epc == tag.epc.get_id());
    }

    Ok(())
}

#[test]
fn read_alt() -> TestResult {
    let mut chip = FakeChip::new();
    let reader = tuned_reader(&mut chip)?;

    let (_stats, tags) = run_inventory_once(&mut chip, &reader)?;

    if tags.is_empty() {
        panic!("No tags found")
    }

    run_select(&mut chip, &reader, &tags[0].epc)?;

    let bytes = run_read_alt(&mut chip, &reader, MemoryBank::User, 0xEC, 1, None)?;

    println!("Read bytes: {:0X?}", bytes);
    assert_eq!(bytes, [0xBE, 0xEF]);

    Ok(())
}

#[test]
fn write() -> TestResult {
    let mut chip = FakeChip::new();
    let reader = tuned_reader(&mut chip)?;

    let (_stats, tags) = run_inventory_once(&mut chip, &reader)?;

    if tags.is_empty() {
        panic!("No tags found")
    }

    run_select(&mut chip, &reader, &tags[0].epc)?;

    run_write(&mut chip, &reader, MemoryBank::User, 0x00, [0x55, 0x55], None)?;

    let bytes_read = run_read(&mut chip, &reader, MemoryBank::User, 0x00, 2, None)?;

    assert_eq!(bytes_read, [0x55, 0x55]);

    Ok(())
}

#[test]
fn custom() -> TestResult {
    let mut chip = FakeChip::new();
    let reader = tuned_reader(&mut chip)?;

    let (_stats, tags) = run_inventory_once(&mut chip, &reader)?;

    if tags.is_empty() {
        panic!("No tags found")
    }

    run_select(&mut chip, &reader, &tags[0].epc)?;

    // Determine tag's allocation class
    let allocation_class = *tags[0].tid.index(0);
    println!(
        "Found tag {} with allocation class {:02X}",
        tags[0].epc.to_string(),
        allocation_class
    );

    // Create custom command: GetUID for EM4325
    let get_uid = Gen2CustomCommand {
        command_code: 0xE000,
        use_crc: true,
        use_rn16: true,
        expect_header: true,
    };

    // The response's length is dependant on the UID's length
    // which is determined by allocation class
    let uid_len = match allocation_class {
        0xE0 => 64,
        0xE3 => 80,
        0xE2 => 96,
        0x44 | 0x45 | 0x46 | 0x47 => 64,
        _ => panic!("unknown allocation class"),
    };

    // Get tag's UID
    let uid = run_custom_cmd(&mut chip, &reader, &get_uid, None, uid_len, None)?;
    println!("Tag UID: {:02X?}", &uid[..uid.len() - 2]); // Last 2 bytes are RN16 code
    assert_eq!(uid.len(), 12 + 2);
    assert_eq!(&uid[..4], &[0xE2, 0x80, 0x11, 0x05]);
    assert_eq!(&uid[12..], &[0x12, 0x34]);

    Ok(())
}

#[test]
fn end_to_end_scenario() -> TestResult {
    let mut chip = FakeChip::new();
    let reader = run_connect(&mut chip)?;
    let mut reader = run_configure_gen2(&mut chip, reader, &Gen2Cfg::builder().build().unwrap())?;
    run_tune(&mut chip, &mut reader, TuningAlgorithm::Exact)?;
    let (statistics, tags) = run_inventory_once(&mut chip, &reader)?;
    assert_eq!(statistics.tag_count as usize, tags.len());
    for tag in &tags {
        run_select(&mut chip, &reader, &tag.epc)?;
        let bytes = run_read(&mut chip, &reader, MemoryBank::Epc, 0x02, 12, None)?;
        assert_eq!(bytes, tag.epc.get_id());
    }
    Ok(())
}

#[test]
fn commands_before_tuning_are_turned_down() -> TestResult {
    let mut chip = FakeChip::new();
    let reader = run_connect(&mut chip)?;
    let mut reader = run_configure_gen2(&mut chip, reader, &Gen2Cfg::builder().build().unwrap())?;
    assert!(!reader.is_tuned());
    let asked = chip.log.len();
    let epc = HexID::from_id(vec![1, 2, 3]);

    assert_eq!(run_select(&mut chip, &reader, &epc), Err(Error::Generic));
    assert_eq!(run_read(&mut chip, &reader, MemoryBank::Epc, 2, 12, None), Err(Error::Generic));
    assert_eq!(run_write(&mut chip, &reader, MemoryBank::User, 0, [1, 2], None), Err(Error::Generic));
    assert_eq!(run_inventory_once(&mut chip, &reader).unwrap_err(), Error::Generic);
    assert_eq!(run_inventory(&mut chip, &mut reader, 5, &mut |_| true), Err(Error::Generic));
    assert_eq!(run_read_alt(&mut chip, &reader, MemoryBank::User, 0xEC, 1, None), Err(Error::Generic));
    let command = Gen2CustomCommand { use_crc: true, use_rn16: true, command_code: 0xE000, expect_header: true };
    assert_eq!(run_custom_cmd(&mut chip, &reader, &command, None, 64, None), Err(Error::Generic));
    assert_eq!(chip.log.len(), asked, "the chip was asked: {:?}", &chip.log[asked..]);

    // tuning with no algorithm asks nothing and changes nothing
    run_tune(&mut chip, &mut reader, TuningAlgorithm::NoTuning)?;
    assert_eq!(chip.log.len(), asked);
    assert!(!reader.is_tuned());
    assert_eq!(run_select(&mut chip, &reader, &epc), Err(Error::Generic));

    // a tuning that the chip refuses leaves the reader untuned
    chip.refuse = Some((asked + 1, Error::ReflectedPower));
    assert_eq!(run_tune(&mut chip, &mut reader, TuningAlgorithm::Fast), Err(Error::ReflectedPower));
    assert!(!reader.is_tuned());
    chip.refuse = Some((asked + 2, Error::Timeout));
    assert_eq!(run_tune(&mut chip, &mut reader, TuningAlgorithm::Fast), Err(Error::Timeout));
    assert_eq!(&chip.log[asked..], ["Get_TxRxCfg", "TuneChannel", "Get_TxRxCfg"]);
    assert!(!reader.is_tuned());

    run_tune(&mut chip, &mut reader, TuningAlgorithm::GroupedExact)?;
    assert!(reader.is_tuned());
    assert_eq!(chip.tuned, Some((Antenna::Antenna1, TuningAlgorithm::GroupedExact, true)));
    run_tune(&mut chip, &mut reader, TuningAlgorithm::NoTuning)?;
    assert!(reader.is_tuned());
    Ok(())
}

#[test]
fn configuration_is_pushed_in_order_and_stops_at_the_first_refusal() {
    let order = [
        "Set_TxRxCfg",
        "Set_Gen2_InventoryCfg",
        "Set_Gen2_ProtocolCfg",
        "Set_FreqLBT",
        "Set_ChannelList",
        "Set_FreqHop",
        "Gen2_Select",
    ];
    let cfg = Gen2Cfg::builder().build().unwrap();
    for step in 0..7 {
        let mut chip = FakeChip::refusing(1 + step, Error::Param);
        let reader = run_connect(&mut chip).unwrap();
        let outcome = run_configure_gen2(&mut chip, reader, &cfg);
        assert_eq!(outcome.unwrap_err(), Error::Param);
        assert_eq!(&chip.log[1..], &order[..=step]);
    }
    let mut chip = FakeChip::new();
    let reader = run_connect(&mut chip).unwrap();
    assert!(run_configure_gen2(&mut chip, reader, &cfg).is_ok());
    assert_eq!(&chip.log[1..], &order[..]);
}

#[test]
fn configuration_requests_hold_the_configuration() {
    let cfg = Gen2Cfg::builder().build().unwrap();
    let reader = Reader::connect(
        Connection::new(PORT, Error::NoError).unwrap(),
        &DummyReader::new().get_version().unwrap(),
    )
    .unwrap();
    let (mut run, mut request) = reader.configure_gen2(&cfg);
    let mut seen = Vec::new();
    loop {
        seen.push(format!("{:?}", request));
        match &request {
            ConfigureRequest::SetTxRxCfg(w) => {
                assert_eq!((w.tx_output_level, w.rx_sensitivity, w.rfu), (-2, -3, 3))
            }
            ConfigureRequest::SetGen2InventoryCfg(w) => {
                assert!(w.anti_collision.adaptive_q);
                assert!(w.inventory_option.read_tid);
            }
            ConfigureRequest::SetGen2ProtocolCfg(w) => assert!(w.trext),
            ConfigureRequest::SetFreqLbt(w) => assert!(w.skip_lbt_check),
            ConfigureRequest::SetChannelList(w) => {
                assert_eq!(w.item_list.len(), 4);
                assert_eq!(w.item_list[0].frequency, 865_700);
            }
            ConfigureRequest::SetFreqHop(w) => assert_eq!(w.max_sending_time, 400),
            ConfigureRequest::Gen2Select(w) => {
                assert_eq!(*w, wire::Gen2Select { mode: wire::SelectMode::ClearList, ..wire::Gen2Select::default() })
            }
        }
        match run.advance(&cfg, Error::NoError) {
            ConfigureOutcome::Next(next, following) => {
                run = next;
                request = following;
            }
            ConfigureOutcome::Done(reader) => {
                assert!(!reader.is_tuned());
                break;
            }
            ConfigureOutcome::Failed(_) => unreachable!(),
        }
    }
    assert_eq!(seen.len(), 7);
}

#[test]
fn runs_follow_each_other() -> TestResult {
    let mut chip = FakeChip::new();
    let mut reader = tuned_reader(&mut chip)?;

    // no rounds at all is not a run
    let asked = chip.log.len();
    assert_eq!(run_inventory(&mut chip, &mut reader, 0, &mut |_| true), Err(Error::NoError));
    assert_eq!(chip.log.len(), asked);

    // a callback that fails in the third round stops the run
    let mut seen = 0;
    let failed = run_inventory(&mut chip, &mut reader, 20, &mut |_| {
        seen += 1;
        seen < 5
    });
    assert_eq!(failed, Err(Error::Generic));
    assert_eq!(seen, 5);
    assert!(chip.stopped);
    assert_eq!(chip.log.last(), Some(&"Inventory_RunnerStop"));

    // the next run proceeds
    let mut count = 0;
    let stats = run_inventory(&mut chip, &mut reader, 3, &mut |_| {
        count += 1;
        true
    })?;
    assert_eq!((stats.round_count, count), (3, 6));

    // so does the one after a run that the chip refused
    chip.refuse = Some((chip.log.len(), Error::Busy));
    assert_eq!(run_inventory(&mut chip, &mut reader, 3, &mut |_| true), Err(Error::Busy));
    assert_eq!(run_inventory(&mut chip, &mut reader, 1, &mut |_| true)?.round_count, 1);

    // the error of the chip comes before the failure of the callback
    let (_option, data) = reader.inventory(2, TAG_LIST_SIZE)?;
    assert_eq!(reader.end_round(false), RoundVerdict { status: Error::Generic, stop: true });
    assert_eq!(reader.inventory_result(Error::Timeout, data.statistics), Err(Error::Timeout));
    assert_eq!(run_inventory(&mut chip, &mut reader, 1, &mut |_| true)?.round_count, 1);
    Ok(())
}

#[test]
fn one_run_at_a_time() -> TestResult {
    let mut chip = FakeChip::new();
    let mut reader = tuned_reader(&mut chip)?;
    let mut data = wire::InventoryData {
        statistics: wire::InventoryStatistics::default(),
        tag_list: Vec::new(),
        tag_list_size: 0,
        tag_list_size_max: 2,
    };
    chip.fill(&mut data);
    // outside a run there is no callback to hand tags to
    assert!(reader.begin_round(&data).is_none());
    assert_eq!(reader.end_round(false), RoundVerdict { status: Error::Generic, stop: true });

    let (option, request) = reader.inventory(7, 2)?;
    assert_eq!(option.round_cnt, 7);
    assert_eq!(option.options, 0);
    assert_eq!((request.tag_list_size, request.tag_list_size_max), (0, 2));
    assert!(request.tag_list.is_empty());
    assert_eq!(reader.inventory(7, 2).unwrap_err(), Error::Busy);
    let tags = reader.begin_round(&data).unwrap();
    assert_eq!(tags.len(), 2);
    assert_eq!(reader.end_round(true), RoundVerdict { status: Error::NoError, stop: false });
    assert_eq!(reader.inventory(7, 2).unwrap_err(), Error::Busy);
    let stats = reader.inventory_result(Error::NoError, data.statistics)?;
    assert_eq!(stats.tag_count, 2);
    assert!(reader.inventory(7, 2).is_ok());
    Ok(())
}

#[test]
fn only_the_tags_that_the_chip_counted_are_taken() {
    let mut chip = FakeChip::new();
    let reader = tuned_reader(&mut chip).unwrap();
    let (_option, mut data) = reader.inventory_once(8).unwrap();
    chip.fill(&mut data);
    assert_eq!(data.tag_list.len(), 8);
    assert!(data.is_found_wf());
    assert!(!data.is_prefix_wf(3), "the third entry was not filled");
    assert!(!data.is_prefix_wf(9));

    for found in 0..=2u32 {
        data.statistics.tag_cnt = found;
        let (stats, tags) = Gen2Reader::inventory_once_result(Error::NoError, &data).unwrap();
        assert_eq!(stats.tag_count, found);
        assert_eq!(tags.len(), found as usize);
        for (slot, tag) in tags.iter().enumerate() {
            assert!(*tag == InventoryTag::from(&data.tag_list[slot]));
            assert_eq!(tag.epc.get_id(), &chip.tags[slot].epc[..]);
        }
    }
    assert_eq!(
        Gen2Reader::inventory_once_result(Error::ChipNoResp, &data).unwrap_err(),
        Error::ChipNoResp
    );
}

#[test]
fn select_masks() {
    let mut chip = FakeChip::new();
    let reader = tuned_reader(&mut chip).unwrap();
    for len in [0usize, 1, 12, 31, 32, 33, 62] {
        let epc: Vec<u8> = (0..len).map(|i| 0xA0 ^ i as u8).collect();
        let sel = reader.select(&HexID::from_id(epc.clone())).unwrap();
        let mut mask = [0u8; 32];
        let kept = len.min(32);
        mask[..kept].copy_from_slice(&epc[..kept]);
        assert_eq!(
            sel,
            wire::Gen2Select {
                mode: wire::SelectMode::ClearAndAdd,
                target: wire::SelectTarget::Sl,
                action: 0,
                memory_bank: MemoryBank::Epc,
                mask,
                mask_bit_pointer: 0x20,
                mask_bit_length: if len >= 32 { 0xFF } else { 8 * len as u8 },
                truncation: 0,
            }
        );
    }
}

#[test]
fn read_and_write_requests() {
    let mut chip = FakeChip::new();
    let reader = tuned_reader(&mut chip).unwrap();
    let password = Password::from([0xDE, 0xAD, 0xBE, 0xEF]);
    assert_eq!(
        reader.read(MemoryBank::Tid, 7, 200, Some(password)).unwrap(),
        wire::Read {
            word_ptr: 7,
            memory_bank: MemoryBank::Tid,
            num_bytes_to_read: 200,
            pwd: [0xDE, 0xAD, 0xBE, 0xEF],
            num_read_bytes: 0,
            data: [0; 64],
        }
    );
    assert_eq!(reader.read(MemoryBank::Epc, 2, 12, None).unwrap().pwd, [0; 4]);
    assert_eq!(
        reader.write(MemoryBank::User, 0xEC, [0x12, 0x34], None).unwrap(),
        wire::Write {
            word_ptr: 0xEC,
            memory_bank: MemoryBank::User,
            pwd: [0; 4],
            data: [0x12, 0x34],
            tag_reply: 0,
        }
    );
    assert_eq!(
        reader.write(MemoryBank::Reserved, 0, [0, 0], Some(password)).unwrap().pwd,
        [0xDE, 0xAD, 0xBE, 0xEF]
    );
}

#[test]
fn answers_are_cut_to_the_length_that_the_chip_reports() {
    let mut data = [0u8; 64];
    for (i, b) in data.iter_mut().enumerate() {
        *b = i as u8;
    }
    let mut answer = wire::Read {
        word_ptr: 0,
        memory_bank: MemoryBank::User,
        num_bytes_to_read: 12,
        pwd: [0; 4],
        num_read_bytes: 5,
        data,
    };
    // fewer bytes than were asked for
    assert_eq!(Gen2Reader::read_result(Error::NoError, &answer).unwrap(), [0, 1, 2, 3, 4]);
    // more bytes than were asked for
    answer.num_read_bytes = 64;
    assert_eq!(Gen2Reader::read_result(Error::NoError, &answer).unwrap(), data);
    answer.num_read_bytes = 0;
    assert!(Gen2Reader::read_result(Error::NoError, &answer).unwrap().is_empty());
    assert_eq!(Gen2Reader::read_result(Error::Gen2Access, &answer), Err(Error::Gen2Access));

    let mut rcv_data = [0u8; 128];
    for (i, b) in rcv_data.iter_mut().enumerate() {
        *b = 0x80 | i as u8;
    }
    let mut generic = wire::Gen2GenericCmd {
        pwd: [0; 4],
        cmd: wire::GenericCmdMode::Crc,
        no_response_time: 0xFF,
        expected_rcv_data_bit_length: 32,
        snd_data_bit_length: 16,
        append_rn16: true,
        snd_data: [0; 64],
        rcv_data_length: 4,
        rcv_data,
    };
    assert_eq!(
        Gen2Reader::custom_cmd_result(Error::NoError, &generic).unwrap(),
        [0x80, 0x81, 0x82, 0x83]
    );
    assert_eq!(Gen2Reader::read_alt_result(Error::NoError, &generic).unwrap(), [0x80, 0x81]);
    generic.rcv_data_length = 2;
    assert!(Gen2Reader::read_alt_result(Error::NoError, &generic).unwrap().is_empty());
    generic.rcv_data_length = 128;
    assert_eq!(Gen2Reader::custom_cmd_result(Error::NoError, &generic).unwrap(), rcv_data);
    assert_eq!(Gen2Reader::read_alt_result(Error::NoError, &generic).unwrap(), rcv_data[..126]);
    assert_eq!(Gen2Reader::custom_cmd_result(Error::ChipCrc, &generic), Err(Error::ChipCrc));
    assert_eq!(Gen2Reader::read_alt_result(Error::ChipHeader, &generic), Err(Error::ChipHeader));
}

#[test]
fn read_alt_frames() {
    let mut chip = FakeChip::new();
    let reader = tuned_reader(&mut chip).unwrap();

    let cmd = reader.read_alt(MemoryBank::User, 0xEC, 1, None).unwrap();
    let mut snd_data = [0u8; 64];
    snd_data[..5].copy_from_slice(&[0xC2, 0xE0, 0x5B, 0x00, 0x40]);
    assert_eq!(
        cmd,
        wire::Gen2GenericCmd {
            pwd: [0; 4],
            cmd: wire::GenericCmdMode::CrcExpectHead,
            no_response_time: 0xFF,
            expected_rcv_data_bit_length: 32,
            snd_data_bit_length: 34,
            append_rn16: true,
            snd_data,
            rcv_data_length: 0,
            rcv_data: [0; 128],
        }
    );

    // one byte of address
    let cmd = reader.read_alt(MemoryBank::Epc, 2, 6, Some(Password::from([1, 2, 3, 4]))).unwrap();
    assert_eq!(&cmd.snd_data[..4], &[0xC2, 0x40, 0x81, 0x80]);
    assert!(cmd.snd_data[4..].iter().all(|b| *b == 0));
    assert_eq!((cmd.snd_data_bit_length, cmd.expected_rcv_data_bit_length), (26, 112));
    assert_eq!(cmd.pwd, [1, 2, 3, 4]);

    // five bytes of address, and the greatest word count
    let cmd = reader.read_alt(MemoryBank::Tid, u32::MAX, 255, None).unwrap();
    assert_eq!(&cmd.snd_data[..8], &[0xC2, 0xA3, 0xFF, 0xFF, 0xFF, 0xDF, 0xFF, 0xC0]);
    assert!(cmd.snd_data[8..].iter().all(|b| *b == 0));
    assert_eq!((cmd.snd_data_bit_length, cmd.expected_rcv_data_bit_length), (58, 4096));

    // every frame is the bit string of its fields
    for (bank, address, words) in [
        (MemoryBank::Reserved, 0u32, 0u8),
        (MemoryBank::Epc, 127, 1),
        (MemoryBank::Tid, 128, 2),
        (MemoryBank::User, 0xEC, 1),
        (MemoryBank::User, 16_384, 200),
        (MemoryBank::Epc, 0x1234_5678, 0xA5),
    ] {
        let cmd = reader.read_alt(bank, address, words, None).unwrap();
        let mut bits = format!("11000010{:02b}", bank.code());
        for block in libstuhfl::helpers::ebv_formatter(address) {
            bits += &format!("{:08b}", block);
        }
        bits += &format!("{:08b}", words);
        assert_eq!(cmd.snd_data_bit_length as usize, bits.len());
        let frame: String = cmd.snd_data.iter().map(|b| format!("{:08b}", b)).collect();
        assert_eq!(&frame[..bits.len()], bits);
        assert!(frame[bits.len()..].bytes().all(|c| c == b'0'));
    }
}

#[test]
fn custom_command_frames() {
    let mut chip = FakeChip::new();
    let reader = tuned_reader(&mut chip).unwrap();
    let command = |use_crc, expect_header, use_rn16| Gen2CustomCommand {
        use_crc,
        use_rn16,
        command_code: 0xE1A2,
        expect_header,
    };
    let mode = |use_crc, expect_header| {
        reader.custom_cmd(&command(use_crc, expect_header, false), None, 0, None).unwrap().cmd
    };
    assert_eq!(mode(true, false), wire::GenericCmdMode::Crc);
    assert_eq!(mode(true, true), wire::GenericCmdMode::CrcExpectHead);
    assert_eq!(mode(false, false), wire::GenericCmdMode::NoCrc);
    // expecting a header changes nothing where CRC is off
    assert_eq!(mode(false, true), wire::GenericCmdMode::NoCrc);

    let bare = reader.custom_cmd(&command(true, true, true), None, 64, None).unwrap();
    let mut snd_data = [0u8; 64];
    snd_data[0] = 0xE1;
    snd_data[1] = 0xA2;
    assert_eq!(
        bare,
        wire::Gen2GenericCmd {
            pwd: [0; 4],
            cmd: wire::GenericCmdMode::CrcExpectHead,
            no_response_time: 0xFF,
            expected_rcv_data_bit_length: 80,
            snd_data_bit_length: 16,
            append_rn16: true,
            snd_data,
            rcv_data_length: 0,
            rcv_data: [0; 128],
        }
    );

    let payload = [0xDE, 0xAD, 0xB0];
    let data = Gen2CustomCommandData::new(20, &payload).unwrap();
    let password = Password::from([9, 8, 7, 6]);
    let with_data = reader.custom_cmd(&command(false, false, false), Some(data), 64, Some(password)).unwrap();
    snd_data[2..5].copy_from_slice(&payload);
    assert_eq!(with_data.snd_data, snd_data);
    assert_eq!(with_data.snd_data_bit_length, 36);
    assert_eq!(with_data.expected_rcv_data_bit_length, 64);
    assert!(!with_data.append_rn16);
    assert_eq!(with_data.pwd, [9, 8, 7, 6]);

    let longest = [0x5A; 62];
    let data = Gen2CustomCommandData::new(8 * 62 - 1, &longest).unwrap();
    let full = reader.custom_cmd(&command(true, false, true), Some(data), 65_519, None).unwrap();
    assert_eq!(&full.snd_data[2..], &longest[..]);
    assert_eq!(full.snd_data_bit_length, 16 + 495);
    assert_eq!(full.expected_rcv_data_bit_length, 65_535);
}

#[test]
fn custom_commands_that_cannot_be_sent() -> TestResult {
    let mut chip = FakeChip::new();
    let plain = run_connect(&mut chip)?;
    let mut reader = run_configure_gen2(&mut chip, plain, &Gen2Cfg::builder().build().unwrap())?;
    let with_handle = Gen2CustomCommand { use_crc: true, use_rn16: true, command_code: 0xE000, expect_header: true };
    let without_handle = Gen2CustomCommand { use_rn16: false, ..with_handle };
    let too_long = [0x5A; 63];
    let data = Gen2CustomCommandData::new(500, &too_long).unwrap();

    // a reader that is not tuned is not ready, whatever is asked of it
    assert_eq!(reader.custom_cmd(&with_handle, Some(data), 65_535, None), Err(Error::Generic));
    assert_eq!(run_custom_cmd(&mut chip, &reader, &with_handle, Some(data), 65_535, None), Err(Error::Generic));

    run_tune(&mut chip, &mut reader, TuningAlgorithm::Exact)?;
    let asked = chip.log.len();

    // data that does not fit the send buffer
    assert_eq!(reader.custom_cmd(&without_handle, Some(data), 64, None), Err(Error::Param));
    let huge = vec![0u8; 9000];
    let data = Gen2CustomCommandData::new(8 * 9000 - 1, &huge).unwrap();
    assert_eq!(reader.custom_cmd(&without_handle, Some(data), 64, None), Err(Error::Param));

    // an answer whose length cannot be said in 16 bits
    assert_eq!(reader.custom_cmd(&with_handle, None, 65_520, None), Err(Error::Param));
    assert_eq!(reader.custom_cmd(&with_handle, None, 65_535, None), Err(Error::Param));
    assert!(reader.custom_cmd(&with_handle, None, 65_519, None).is_ok());
    assert_eq!(
        reader.custom_cmd(&without_handle, None, 65_535, None)?.expected_rcv_data_bit_length,
        65_535
    );
    assert_eq!(
        run_custom_cmd(&mut chip, &reader, &with_handle, None, 65_520, None),
        Err(Error::Param)
    );
    assert_eq!(chip.log.len(), asked);
    Ok(())
}

#[test]
fn port_choice() {
    assert!(is_reader_port(0x0403, 0x6015));
    assert!(!is_reader_port(0x0403, 0x6001));
    assert!(!is_reader_port(0x0404, 0x6015));
    assert_eq!(Reader::autoconnect(&[]), Err(Error::GeneralIo));
    assert_eq!(Reader::autoconnect(&[false, false]), Err(Error::GeneralIo));
    assert_eq!(Reader::autoconnect(&[true]), Ok(0));
    // the last usable port is taken
    assert_eq!(Reader::autoconnect(&[true, false, true, false]), Ok(2));
}

#[test]
fn connecting() {
    assert_eq!(Connection::new("/dev/ttyUSB0", Error::NoError).unwrap().port(), "/dev/ttyUSB0");
    assert_eq!(Connection::new("COM6", Error::NoError).unwrap().port(), "COM6");
    assert_eq!(Connection::new(PORT, Error::GeneralIo).unwrap_err(), Error::GeneralIo);
    assert_eq!(Connection::new(PORT, Error::Generic).unwrap_err(), Error::Generic);

    let version = |sw: (u8, u8, u8, u8), hw: (u8, u8, u8, u8)| {
        let mut v = DummyReader::new().get_version().unwrap();
        v.sw_ver = VersionNum { major: sw.0, minor: sw.1, micro: sw.2, nano: sw.3 };
        v.hw_ver = VersionNum { major: hw.0, minor: hw.1, micro: hw.2, nano: hw.3 };
        v
    };
    let connect = |v: &Version| Reader::connect(Connection::new(PORT, Error::NoError).unwrap(), v);
    assert!(connect(&version((3, 1, 0, 0), (1, 1, 0, 0))).is_ok());
    assert!(connect(&version((3, 2, 0, 0), (1, 1, 0, 5))).is_ok());
    // too old a reader is turned down with the code of success, as a warning
    assert_eq!(connect(&version((3, 0, 9, 9), (1, 1, 0, 0))).unwrap_err(), Error::NoError);
    assert_eq!(connect(&version((3, 1, 0, 0), (1, 0, 0, 0))).unwrap_err(), Error::NoError);
}

#[test]
fn version_requests_stop_at_the_first_error() {
    let reader = Reader::connect(
        Connection::new(PORT, Error::NoError).unwrap(),
        &DummyReader::new().get_version().unwrap(),
    )
    .unwrap();
    let (sw, hw) = version_of((3, 4, 5, 6), (1, 2, 3, 4));
    assert_eq!(reader.get_version(Error::Timeout, sw, hw), Err(Error::Timeout));
    let numbers = reader.get_version(Error::NoError, sw, hw).unwrap();
    assert_eq!(numbers.0, VersionNum { major: 3, minor: 4, micro: 5, nano: 6 });
    assert_eq!(numbers.1, VersionNum { major: 1, minor: 2, micro: 3, nano: 4 });
    assert_eq!(
        reader.get_version_info(numbers, Error::NoMsg, String::new(), String::new()).unwrap_err(),
        Error::NoMsg
    );
    let version = reader.get_version_info(numbers, Error::NoError, "a".to_owned(), "b".to_owned()).unwrap();
    assert_eq!(version.to_string(), "SW: v3.4.5.6, a. HW: v1.2.3.4, b.");
}

#[test]
fn basic_requests() -> TestResult {
    let mut chip = FakeChip::new();
    let mut reader = tuned_reader(&mut chip)?;
    assert_eq!(
        reader.set_antenna_power(true, 100, 865_700),
        wire::AntennaPower { mode: 1, timeout: 100, frequency: 865_700 }
    );
    assert_eq!(
        reader.set_antenna_power(false, 0, 1),
        wire::AntennaPower { mode: 0, timeout: 0, frequency: 1 }
    );
    assert_eq!(reader.set_power_amplifier_cfg(true), wire::PowerAmplifierCfg { external: true });

    // a reader that gave up its protocol can be configured anew
    let plain: Reader = reader.disconfigure();
    let mut again = run_configure_gen2(&mut chip, plain, &Gen2Cfg::builder().build().unwrap())?;
    assert!(!again.is_tuned());
    run_tune(&mut chip, &mut again, TuningAlgorithm::Fast)?;
    assert_eq!(again.disconnect(Error::NoError), Ok(()));

    let other = run_connect(&mut chip)?;
    assert_eq!(other.disconnect(Error::GeneralIo), Err(Error::GeneralIo));
    Ok(())
}

#[test]
fn the_connection_goes_from_reader_to_reader() -> TestResult {
    let cfg = Gen2Cfg::builder().build().unwrap();
    let version = DummyReader::new().get_version()?;
    for port in ["/dev/ttyUSB0", "COM6", ""] {
        let mut chip = FakeChip::new();

        // an accepted reader gives up the connection that it was made with
        let reader = Reader::connect(Connection::new(port, Error::NoError)?, &version)?;
        let connection = reader.steal_connection();
        assert_eq!(connection.port(), port);

        // so does a configured reader, and a reader that gave up its protocol
        let reader = Reader::connect(connection, &version)?;
        let mut reader = run_configure_gen2(&mut chip, reader, &cfg)?;
        run_tune(&mut chip, &mut reader, TuningAlgorithm::Exact)?;
        let plain = reader.disconfigure();
        let again = run_configure_gen2(&mut chip, plain, &cfg)?;
        assert_eq!(again.steal_connection().port(), port);

        // a configuration that is under way holds it, too
        let reader = Reader::connect(Connection::new(port, Error::NoError)?, &version)?;
        let (run, _request) = reader.configure_gen2(&cfg);
        match run.advance(&cfg, Error::NoError) {
            ConfigureOutcome::Next(run, _request) => match run.advance(&cfg, Error::NoError) {
                ConfigureOutcome::Next(..) => {}
                _ => unreachable!(),
            },
            _ => unreachable!(),
        }
    }
    Ok(())
}

#[test]
fn dummy_reader() -> TestResult {
    let mut reader = DummyReader::new();
    let version = reader.get_version()?;
    assert_eq!(
        version.to_string(),
        "SW: v3.1.0.0, STUHFL SDK Evaluation FW @ STM32L4x6. HW: v1.1.0.0, ST25RU3993-EVAL Board.."
    );
    assert!(version.is_compatible());
    assert_eq!(reader.test_compatible(), Ok(true));
    reader.tune(TuningAlgorithm::Exact)?;
    let (stats, tags) = reader.inventory_once()?;
    assert_eq!(stats, InventoryStatistics { tag_count: 1, ..InventoryStatistics::new() });
    assert_eq!(tags.len(), stats.tag_count as usize);
    assert_eq!(tags.len(), 1);
    assert_eq!(tags[0].epc.to_string(), "");
    assert_eq!(tags[0].antenna, Antenna::Antenna1);
    let stats = reader.inventory(20, |_tag| panic!("the callback was called"))?;
    assert_eq!(stats, InventoryStatistics::new());
    reader.select(&tags[0].epc)?;
    let bytes = reader.read(MemoryBank::User, 0x00, 8, Some(Password::from([0x55, 0x55, 0x55, 0x55])))?;
    assert!(bytes.is_empty());
    reader.write(MemoryBank::User, 0x00, [0x55, 0x55], None)?;
    Ok(())
}
