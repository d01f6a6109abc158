use hzgrow_r502::{
    Command, CommandWriter, DeletCharResult, DeletCharStatus, Error, GenImgResult, GenImgStatus,
    Img2TzResult, Img2TzStatus, LoadCharResult, LoadCharStatus, MatchResult, MatchStatus,
    PasswordVerificationState, ReadSysParaResult, RegModelResult, RegModelStatus, Reply,
    SearchResult, SearchStatus, StoreResult, StoreStatus, TemplateNumResult, TemplateNumStatus,
    VfyPwdResult, R502,
};

struct TestTx;
struct TestRx;

fn receive_all(r502: &mut R502<TestTx, TestRx>, bytes: &[u8]) {
    for b in bytes {
        r502.receive_byte(*b);
    }
}

#[test]
fn checksum_tests() {
    // given: a r502 instance
    let mut r502 = R502::new(TestTx, TestRx, 0xffffffff);
    r502.clear_buffers();

    // and: some data to compute a checksum of
    r502.write_cmd_bytes(&[0xef, 0x01, 0xff, 0xff, 0xff, 0xff, 0xc0, 0xc1]);

    // when: computing the command checksum
    // then: the checksum is correct
    assert_eq!(r502.compute_checksum(), 0x0181u16);
}

#[test]
fn test_read_sys_para_serialisation() {
    // given: a r502 instance
    let mut r502 = R502::new(TestTx, TestRx, 0xffffffff);
    r502.clear_buffers();

    // when: preparing the command
    r502.prepare_cmd(Command::ReadSysPara);

    // then: the resulting packet length is correct
    assert_eq!(r502.cmd_bytes().len(), 12);
    // and: the packet is correct
    assert_eq!(
        r502.cmd_bytes(),
        &[0xef, 0x01, 0xff, 0xff, 0xff, 0xff, 0x01, 0x00, 0x03, 0x0f, 0x00, 0x13]
    );
}

#[test]
fn test_read_sys_para_deserialisation() {
    // given: a r502 instance with a command in flight
    let mut r502 = R502::new(TestTx, TestRx, 0xffffffff);
    r502.clear_buffers();
    r502.prepare_cmd(Command::ReadSysPara);

    // and: a reply in the receive buffer
    receive_all(
        &mut r502,
        &[0xef, 0x01, 0xff, 0xff, 0xff, 0xff, 0x07, 0x00, 0x13, 0x00, 0x00, 0x00, 0x00, 0x00,
            0x00, 0xc8, 0x00, 0x03, 0xff, 0xff, 0xff, 0xff, 0x00, 0x02, 0x00, 0x06, 0x04, 0xe9],
    );

    // when: parsing a reply
    let r: Result<Reply, Error<(), ()>> = r502.parse_reply();

    // then: reply is ok
    assert_eq!(r.is_ok(), true);

    // and: the reply is correct
    let reply = r.unwrap();
    match reply {
        Reply::ReadSysPara(ReadSysParaResult {
            address,
            confirmation_code: _,
            system_parameters,
            checksum: _,
        }) => {
            assert_eq!(address, 0xffffffff);
            assert_eq!(system_parameters.finger_library_size, 200);
        }
        _ => panic!("Expected Reply::ReadSysPara, got something else!"),
    };
}

#[test]
fn vfy_pwd_serialisation() {
    // given: a r502 instance
    let mut r502 = R502::new(TestTx, TestRx, 0xffffffff);
    r502.clear_buffers();

    // when: preparing the command
    r502.prepare_cmd(Command::VfyPwd {
        password: 0x00000000,
    });

    // then: the resulting packet length is correct
    assert_eq!(r502.cmd_bytes().len(), 16);
    // and: the packet is correct
    assert_eq!(
        r502.cmd_bytes(),
        &[0xef, 0x01, 0xff, 0xff, 0xff, 0xff, 0x01, 0x00, 0x07, 0x13, 0x00, 0x00, 0x00, 0x00,
            0x00, 0x1b]
    );
}

#[test]
fn test_vfy_pwd_deserialisation() {
    // given: a r502 instance with a command in flight
    let mut r502 = R502::new(TestTx, TestRx, 0xffffffff);
    r502.clear_buffers();
    r502.prepare_cmd(Command::VfyPwd {
        password: 0x00000000,
    });

    // and: a reply in the receive buffer
    receive_all(
        &mut r502,
        &[0xef, 0x01, 0xff, 0xff, 0xff, 0xff, 0x07, 0x00, 0x03, 0x00, 0x00, 0x0a],
    );

    // when: parsing a reply
    let r: Result<Reply, Error<(), ()>> = r502.parse_reply();

    // then: reply is ok
    assert_eq!(r.is_ok(), true);

    // and: the reply is correct
    let reply = r.unwrap();
    match reply {
        Reply::VfyPwd(VfyPwdResult {
            address,
            confirmation_code,
            checksum: _,
        }) => {
            assert_eq!(address, 0xffffffff);
            match confirmation_code {
                PasswordVerificationState::Correct => (),
                _ => panic!("Expected PasswordConfirmationCode::Correct"),
            };
        }
        _ => panic!("Expected Reply::VfyPwd, got something else!"),
    };
}

#[test]
fn gen_img_serialisation() {
    // given: a r502 instance
    let mut r502 = R502::new(TestTx, TestRx, 0xffffffff);
    r502.clear_buffers();

    // when: preparing the command
    r502.prepare_cmd(Command::GenImg);

    // then: the resulting packet length is correct
    assert_eq!(r502.cmd_bytes().len(), 12);
    // and: the packet is correct
    assert_eq!(
        r502.cmd_bytes(),
        &[0xef, 0x01, 0xff, 0xff, 0xff, 0xff, 0x01, 0x00, 0x03, 0x01, 0x00, 0x05]
    );
}

#[test]
fn test_gen_img_deserialisation() {
    // given: a r502 instance with a command in flight
    let mut r502 = R502::new(TestTx, TestRx, 0xffffffff);
    r502.clear_buffers();
    r502.prepare_cmd(Command::GenImg);

    // and: a reply in the receive buffer
    receive_all(
        &mut r502,
        &[0xef, 0x01, 0xff, 0xff, 0xff, 0xff, 0x07, 0x00, 0x03, 0x00, 0x00, 0x0a],
    );

    // when: parsing a reply
    let r: Result<Reply, Error<(), ()>> = r502.parse_reply();

    // then: reply is ok
    assert_eq!(r.is_ok(), true);

    // and: the reply is correct
    let reply = r.unwrap();
    match reply {
        Reply::GenImg(GenImgResult {
            address,
            confirmation_code,
            checksum: _,
        }) => {
            assert_eq!(address, 0xffffffff);
            match confirmation_code {
                GenImgStatus::Success => (),
                _ => panic!("Expected GenImgStatus::Success"),
            };
        }
        _ => panic!("Expected Reply::GenImg, got something else!"),
    };
}

#[test]
fn test_img_2_tz_serialisation() {
    // given: a r502 instance
    let mut r502 = R502::new(TestTx, TestRx, 0xffffffff);
    r502.clear_buffers();

    // when: preparing the command
    r502.prepare_cmd(Command::Img2Tz { buffer: 1 });

    // then: the resulting packet length is correct
    assert_eq!(r502.cmd_bytes().len(), 13);
    // and: the packet is correct
    assert_eq!(
        r502.cmd_bytes(),
        &[0xef, 0x01, 0xff, 0xff, 0xff, 0xff, 0x01, 0x00, 0x04, 0x02, 0x01, 0x00, 0x08]
    );
}

#[test]
fn test_img_2_tz_deserialisation() {
    // given: a r502 instance with a command in flight
    let mut r502 = R502::new(TestTx, TestRx, 0xffffffff);
    r502.clear_buffers();
    r502.prepare_cmd(Command::Img2Tz { buffer: 1 });

    // and: a reply in the receive buffer
    receive_all(
        &mut r502,
        &[0xef, 0x01, 0xff, 0xff, 0xff, 0xff, 0x07, 0x00, 0x03, 0x00, 0x00, 0x0a],
    );

    // when: parsing a reply
    let r: Result<Reply, Error<(), ()>> = r502.parse_reply();

    // then: reply is ok
    assert_eq!(r.is_ok(), true);

    // and: the reply is correct
    let reply = r.unwrap();
    match reply {
        Reply::Img2Tz(Img2TzResult {
            address,
            confirmation_code,
            checksum: _,
        }) => {
            assert_eq!(address, 0xffffffff);
            match confirmation_code {
                Img2TzStatus::Success => (),
                _ => panic!("Expected Img2TzStatus::Success"),
            };
        }
        _ => panic!("Expected Reply::Img2Tz, got something else!"),
    };
}

#[test]
fn test_search_serialisation() {
    // given: a r502 instance
    let mut r502 = R502::new(TestTx, TestRx, 0xffffffff);
    r502.clear_buffers();

    // when: preparing the command
    r502.prepare_cmd(Command::Search {
        buffer: 1,
        start_index: 0,
        end_index: 0xffff,
    });

    // then: the resulting packet length is correct
    assert_eq!(r502.cmd_bytes().len(), 17);
    // and: the packet is correct
    assert_eq!(
        r502.cmd_bytes(),
        &[0xef, 0x01, 0xff, 0xff, 0xff, 0xff, 0x01, 0x00, 0x08, 0x04, 0x01, 0x00, 0x00, 0xff,
            0xff, 0x02, 0x0c]
    );
}

#[test]
fn test_search_deserialisation() {
    // given: a r502 instance with a command in flight
    let mut r502 = R502::new(TestTx, TestRx, 0xffffffff);
    r502.clear_buffers();
    r502.prepare_cmd(Command::Search {
        buffer: 1,
        start_index: 0,
        end_index: 0xffff,
    });

    // and: a reply in the receive buffer
    receive_all(
        &mut r502,
        &[0xef, 0x01, 0xff, 0xff, 0xff, 0xff, 0x07, 0x00, 0x07, 0x00, 0x00, 0x00, 0x00, 0xff,
            0x00, 0x4a],
    );

    // when: parsing a reply
    let r: Result<Reply, Error<(), ()>> = r502.parse_reply();

    // then: reply is ok
    assert_eq!(r.is_ok(), true);

    // and: the reply is correct
    let reply = r.unwrap();
    match reply {
        Reply::Search(SearchResult {
            address,
            confirmation_code,
            match_id,
            match_score,
            checksum: _,
        }) => {
            assert_eq!(address, 0xffffffff);
            match confirmation_code {
                SearchStatus::Success => (),
                _ => panic!("Expected SearchStatus::Success"),
            };
            assert_eq!(match_id, 0);
            assert_eq!(match_score, 255);
        }
        _ => panic!("Expected Reply::Search, got something else!"),
    };
}

#[test]
fn test_load_char_serialisation() {
    // given: a r502 instance
    let mut r502 = R502::new(TestTx, TestRx, 0xffffffff);
    r502.clear_buffers();

    // when: preparing the command
    r502.prepare_cmd(Command::LoadChar {
        buffer: 2,
        index: 0,
    });

    // then: the resulting packet length is correct
    assert_eq!(r502.cmd_bytes().len(), 15);
    // and: the packet is correct
    assert_eq!(
        r502.cmd_bytes(),
        &[0xef, 0x01, 0xff, 0xff, 0xff, 0xff, 0x01, 0x00, 0x06, 0x07, 0x02, 0x00, 0x00, 0x00,
            0x10]
    );
}

#[test]
fn test_load_char_tz_deserialisation() {
    // given: a r502 instance with a command in flight
    let mut r502 = R502::new(TestTx, TestRx, 0xffffffff);
    r502.clear_buffers();
    r502.prepare_cmd(Command::LoadChar {
        buffer: 2,
        index: 0,
    });

    // and: a reply in the receive buffer
    receive_all(
        &mut r502,
        &[0xef, 0x01, 0xff, 0xff, 0xff, 0xff, 0x07, 0x00, 0x03, 0x00, 0x00, 0x0a],
    );

    // when: parsing a reply
    let r: Result<Reply, Error<(), ()>> = r502.parse_reply();

    // then: reply is ok
    assert_eq!(r.is_ok(), true);

    // and: the reply is correct
    let reply = r.unwrap();
    match reply {
        Reply::LoadChar(LoadCharResult {
            address,
            confirmation_code,
            checksum: _,
        }) => {
            assert_eq!(address, 0xffffffff);
            match confirmation_code {
                LoadCharStatus::Success => (),
                _ => panic!("Expected LoadCharStatus::Success"),
            };
        }
        _ => panic!("Expected Reply::LoadChar, got something else!"),
    };
}

#[test]
fn test_match_serialisation() {
    // given: a r502 instance
    let mut r502 = R502::new(TestTx, TestRx, 0xffffffff);
    r502.clear_buffers();

    // when: preparing the command
    r502.prepare_cmd(Command::Match);

    // then: the resulting packet length is correct
    assert_eq!(r502.cmd_bytes().len(), 12);
    // and: the packet is correct
    assert_eq!(
        r502.cmd_bytes(),
        &[0xef, 0x01, 0xff, 0xff, 0xff, 0xff, 0x01, 0x00, 0x03, 0x03, 0x00, 0x07]
    );
}

#[test]
fn test_match_deserialisation() {
    // given: a r502 instance with a command in flight
    let mut r502 = R502::new(TestTx, TestRx, 0xffffffff);
    r502.clear_buffers();
    r502.prepare_cmd(Command::Match);

    // and: a reply in the receive buffer
    receive_all(
        &mut r502,
        &[0xef, 0x01, 0xff, 0xff, 0xff, 0xff, 0x07, 0x00, 0x05, 0x00, 0x00, 0x32, 0x00, 0x3e],
    );

    // when: parsing a reply
    let r: Result<Reply, Error<(), ()>> = r502.parse_reply();

    // then: reply is ok
    assert_eq!(r.is_ok(), true);

    // and: the reply is correct
    let reply = r.unwrap();
    match reply {
        Reply::Match(MatchResult {
            address,
            confirmation_code,
            match_score,
            checksum: _,
        }) => {
            assert_eq!(address, 0xffffffff);
            match confirmation_code {
                MatchStatus::Success => (),
                _ => panic!("Expected MatchStatus::Success"),
            };
            assert_eq!(match_score, 50);
        }
        _ => panic!("Expected Reply::Match, got something else!"),
    };
}

#[test]
fn test_template_num_serialisation() {
    // given: a r502 instance
    let mut r502 = R502::new(TestTx, TestRx, 0xffffffff);
    r502.clear_buffers();

    // when: preparing the command
    r502.prepare_cmd(Command::TemplateNum);

    // then: the resulting packet length is correct
    assert_eq!(r502.cmd_bytes().len(), 12);
    // and: the packet is correct
    assert_eq!(
        r502.cmd_bytes(),
        &[0xef, 0x01, 0xff, 0xff, 0xff, 0xff, 0x01, 0x00, 0x03, 0x1d, 0x00, 0x21]
    );
}

#[test]
fn test_template_num_deserialisation() {
    // given: a r502 instance with a command in flight
    let mut r502 = R502::new(TestTx, TestRx, 0xffffffff);
    r502.clear_buffers();
    r502.prepare_cmd(Command::TemplateNum);

    // and: a reply in the receive buffer
    receive_all(
        &mut r502,
        &[0xef, 0x01, 0xff, 0xff, 0xff, 0xff, 0x07, 0x00, 0x05, 0x00, 0x00, 0x03, 0x00, 0x0f],
    );

    // when: parsing a reply
    let r: Result<Reply, Error<(), ()>> = r502.parse_reply();

    // then: reply is ok
    assert_eq!(r.is_ok(), true);

    // and: the reply is correct
    let reply = r.unwrap();
    match reply {
        Reply::TemplateNum(TemplateNumResult {
            address,
            confirmation_code,
            template_num,
            checksum: _,
        }) => {
            assert_eq!(address, 0xffffffff);
            match confirmation_code {
                TemplateNumStatus::Success => (),
                _ => panic!("Expected TemplateNumStatus::Success"),
            };
            assert_eq!(template_num, 3);
        }
        _ => panic!("Expected Reply::TemplateNum, got something else!"),
    };
}

#[test]
fn test_reg_model_serialisation() {
    // given: a r502 instance
    let mut r502 = R502::new(TestTx, TestRx, 0xffffffff);
    r502.clear_buffers();

    // when: preparing the command
    r502.prepare_cmd(Command::RegModel);

    // then: the resulting packet length is correct
    assert_eq!(r502.cmd_bytes().len(), 12);
    // and: the packet is correct
    assert_eq!(
        r502.cmd_bytes(),
        &[0xef, 0x01, 0xff, 0xff, 0xff, 0xff, 0x01, 0x00, 0x03, 0x05, 0x00, 0x09]
    );
}

#[test]
fn test_reg_model_deserialisation() {
    // given: a r502 instance with a command in flight
    let mut r502 = R502::new(TestTx, TestRx, 0xffffffff);
    r502.clear_buffers();
    r502.prepare_cmd(Command::RegModel);

    // and: a reply in the receive buffer
    receive_all(
        &mut r502,
        &[0xef, 0x01, 0xff, 0xff, 0xff, 0xff, 0x07, 0x00, 0x03, 0x00, 0x00, 0x0a],
    );

    // when: parsing a reply
    let r: Result<Reply, Error<(), ()>> = r502.parse_reply();

    // then: reply is ok
    assert_eq!(r.is_ok(), true);

    // and: the reply is correct
    let reply = r.unwrap();
    match reply {
        Reply::RegModel(RegModelResult {
            address,
            confirmation_code,
            checksum: _,
        }) => {
            assert_eq!(address, 0xffffffff);
            match confirmation_code {
                RegModelStatus::Success => (),
                _ => panic!("Expected RegModelStatus::Success"),
            };
        }
        _ => panic!("Expected Reply::RegModel, got something else!"),
    };
}

#[test]
fn test_store_serialisation() {
    // given: a r502 instance
    let mut r502 = R502::new(TestTx, TestRx, 0xffffffff);
    r502.clear_buffers();

    // when: preparing the command
    r502.prepare_cmd(Command::Store { buffer: 1, index: 4 });

    // then: the resulting packet length is correct
    assert_eq!(r502.cmd_bytes().len(), 15);
    // and: the packet is correct
    assert_eq!(
        r502.cmd_bytes(),
        &[0xef, 0x01, 0xff, 0xff, 0xff, 0xff, 0x01, 0x00, 0x06, 0x06, 0x01, 0x00, 0x04, 0x00,
            0x12]
    );
}

#[test]
fn test_store_deserialisation() {
    // given: a r502 instance with a command in flight
    let mut r502 = R502::new(TestTx, TestRx, 0xffffffff);
    r502.clear_buffers();
    r502.prepare_cmd(Command::Store { index: 1, buffer: 1 });

    // and: a reply in the receive buffer
    receive_all(
        &mut r502,
        &[0xef, 0x01, 0xff, 0xff, 0xff, 0xff, 0x07, 0x00, 0x03, 0x00, 0x00, 0x0a],
    );

    // when: parsing a reply
    let r: Result<Reply, Error<(), ()>> = r502.parse_reply();

    // then: reply is ok
    assert_eq!(r.is_ok(), true);

    // and: the reply is correct
    let reply = r.unwrap();
    match reply {
        Reply::Store(StoreResult {
            address,
            confirmation_code,
            checksum: _,
        }) => {
            assert_eq!(address, 0xffffffff);
            match confirmation_code {
                StoreStatus::Success => (),
                _ => panic!("Expected StoreStatus::Success"),
            };
        }
        _ => panic!("Expected Reply::Store, got something else!"),
    };
}

#[test]
fn test_delet_char_serialisation() {
    // given: a r502 instance
    let mut r502 = R502::new(TestTx, TestRx, 0xffffffff);
    r502.clear_buffers();

    // when: preparing the command
    r502.prepare_cmd(Command::DeletChar {
        start_index: 4,
        num_to_delete: 1,
    });

    // then: the resulting packet length is correct
    assert_eq!(r502.cmd_bytes().len(), 16);
    // and: the packet is correct
    assert_eq!(
        r502.cmd_bytes(),
        &[0xef, 0x01, 0xff, 0xff, 0xff, 0xff, 0x01, 0x00, 0x07, 0x0c, 0x00, 0x04, 0x00, 0x01,
            0x00, 0x19]
    );
}

#[test]
fn test_delet_char_deserialisation() {
    // given: a r502 instance with a command in flight
    let mut r502 = R502::new(TestTx, TestRx, 0xffffffff);
    r502.clear_buffers();
    r502.prepare_cmd(Command::DeletChar {
        start_index: 1,
        num_to_delete: 1,
    });

    // and: a reply in the receive buffer
    receive_all(
        &mut r502,
        &[0xef, 0x01, 0xff, 0xff, 0xff, 0xff, 0x07, 0x00, 0x03, 0x00, 0x00, 0x0a],
    );

    // when: parsing a reply
    let r: Result<Reply, Error<(), ()>> = r502.parse_reply();

    // then: reply is ok
    assert_eq!(r.is_ok(), true);

    // and: the reply is correct
    let reply = r.unwrap();
    match reply {
        Reply::DeletChar(DeletCharResult {
            address,
            confirmation_code,
            checksum: _,
        }) => {
            assert_eq!(address, 0xffffffff);
            match confirmation_code {
                DeletCharStatus::Success => (),
                _ => panic!("Expected DeletCharStatus::Success"),
            };
        }
        _ => panic!("Expected Reply::DeletChar, got something else!"),
    };
}
