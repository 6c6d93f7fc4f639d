use jrainbow::error::{ConstructionError, LookupError};
use jrainbow::table::digest_of;
use jrainbow::utils::{generate_chain, reduce};
use jrainbow::Rainbow;

fn corpus() -> Vec<&'static str> {
    vec!["alpha", "bravo", "charlie", "delta", "echo", "foxtrot", "golf", "hotel", "india", "juliet"]
}

fn unhex(text: &str) -> Vec<u8> {
    jrainbow::decode_hex(text).unwrap()
}

fn digest(data: &[u8]) -> Vec<u8> {
    let bytes: [u8; 16] = md5::compute(data).into();
    bytes.to_vec()
}

fn table_of_ten() -> Rainbow {
    Rainbow::create(10, 50, Some(&corpus())).unwrap()
}

#[test]
fn create_keeps_the_seeds_in_order_with_their_endpoints() {
    let table = table_of_ten();
    assert_eq!(table.number_samples(), 10);
    assert_eq!(table.chain_length(), 50);
    let endpoints = [
        "fd4a4cc532bd1d97da293f400a06b693",
        "d63fd2b38f7f4352937605891854e653",
        "66db019d691ebc693048b944ef881a39",
        "7ad424ebe04626a356e7fc89d5dbbd92",
        "9ac697b60450003cd4d59a4b731e09f7",
        "b9f03aac0765454a14e6a621f87548a4",
        "d4a5e50bb7c9b8e703e985402e551b11",
        "1f018240b61be5d3cd66256da9b256e7",
        "fddaf0e54a5f51618ca24a48dbd1f825",
        "7946c02b06889ce1b443f23c0b22d0c8",
    ];
    assert_eq!(table.rainbow_table.len(), 10);
    for (j, seed) in corpus().iter().enumerate() {
        assert_eq!(table.rainbow_table[j].0, seed.as_bytes().to_vec());
        assert_eq!(table.rainbow_table[j].1, unhex(endpoints[j]));
        assert_eq!(table.rainbow_table[j].1, generate_chain(seed.as_bytes(), 50).unwrap());
    }
}

#[test]
fn create_refuses_a_seed_count_that_differs() {
    let seeds = corpus();
    assert_eq!(Rainbow::create(9, 50, Some(&seeds)).err(), Some(ConstructionError::SeedCountMismatch));
    assert_eq!(Rainbow::create(11, 50, Some(&seeds)).err(), Some(ConstructionError::SeedCountMismatch));
    assert_eq!(Rainbow::create(0, 50, Some(&seeds)).err(), Some(ConstructionError::SeedCountMismatch));
    assert_eq!(Rainbow::create(1, 50, Some(&[])).err(), Some(ConstructionError::SeedCountMismatch));
}

#[test]
fn create_refuses_length_zero() {
    let seeds = corpus();
    assert_eq!(Rainbow::create(10, 0, Some(&seeds)).err(), Some(ConstructionError::ZeroLengthChain));
    assert_eq!(Rainbow::create(10, 0, None).err(), Some(ConstructionError::ZeroLengthChain));
    assert_eq!(Rainbow::create(0, 0, None).err(), Some(ConstructionError::ZeroLengthChain));
    assert_eq!(Rainbow::create(0, 0, Some(&[])).err(), Some(ConstructionError::ZeroLengthChain));
}

#[test]
fn create_reports_the_seed_count_before_the_length() {
    let seeds = corpus();
    assert_eq!(Rainbow::create(3, 0, Some(&seeds)).err(), Some(ConstructionError::SeedCountMismatch));
}

#[test]
fn create_of_no_samples_is_an_empty_table() {
    let table = Rainbow::create(0, 5, Some(&[])).unwrap();
    assert_eq!(table.number_samples(), 0);
    assert_eq!(table.chain_length(), 5);
    assert!(table.rainbow_table.is_empty());
    let table = Rainbow::create(0, 5, None).unwrap();
    assert!(table.rainbow_table.is_empty());
}

#[test]
fn create_without_seeds_draws_them() {
    let table = Rainbow::create(40, 7, None).unwrap();
    assert_eq!(table.number_samples(), 40);
    assert_eq!(table.chain_length(), 7);
    assert_eq!(table.rainbow_table.len(), 40);
    for (seed, endpoint) in &table.rainbow_table {
        assert!(seed.len() < 25);
        assert!(seed.iter().all(|byte| byte.is_ascii_alphanumeric()));
        assert_eq!(endpoint, &generate_chain(seed, 7).unwrap());
    }
}

#[test]
fn create_takes_seeds_that_are_not_ascii() {
    let table = Rainbow::create(2, 3, Some(&["", "h\u{e9}"])).unwrap();
    assert_eq!(table.rainbow_table[0].0, Vec::<u8>::new());
    assert_eq!(table.rainbow_table[1].0, vec![104, 195, 169]);
    assert_eq!(table.rainbow_table[1].1, generate_chain(&[104, 195, 169], 3).unwrap());
}

#[test]
fn from_seeds_builds_what_create_builds() {
    let seeds: Vec<Vec<u8>> = corpus().iter().map(|seed| seed.as_bytes().to_vec()).collect();
    let table = Rainbow::from_seeds(10, 50, seeds).unwrap();
    assert_eq!(table.rainbow_table, table_of_ten().rainbow_table);
    assert_eq!(table.number_samples(), 10);
    assert_eq!(table.chain_length(), 50);
}

#[test]
fn from_seeds_refuses_as_create_does() {
    let seeds: Vec<Vec<u8>> = vec![b"a".to_vec(), b"b".to_vec()];
    assert_eq!(
        Rainbow::from_seeds(3, 5, seeds.clone()).err(),
        Some(ConstructionError::SeedCountMismatch)
    );
    assert_eq!(
        Rainbow::from_seeds(3, 0, seeds.clone()).err(),
        Some(ConstructionError::SeedCountMismatch)
    );
    assert_eq!(Rainbow::from_seeds(2, 0, seeds).err(), Some(ConstructionError::ZeroLengthChain));
}

#[test]
fn from_parts_keeps_the_parts() {
    let stored = vec![(b"seed".to_vec(), vec![7u8; 16]), (b"other".to_vec(), vec![9u8; 16])];
    let table = Rainbow::from_parts(5, 12, stored.clone());
    assert_eq!(table.number_samples(), 5);
    assert_eq!(table.chain_length(), 12);
    assert_eq!(table.rainbow_table, stored);
    let built = table_of_ten();
    let again = Rainbow::from_parts(
        built.number_samples(),
        built.chain_length(),
        built.rainbow_table.clone(),
    );
    assert_eq!(again.number_samples(), built.number_samples());
    assert_eq!(again.chain_length(), built.chain_length());
    assert_eq!(again.rainbow_table, built.rainbow_table);
}

#[test]
fn decode_recovers_the_fourth_seed() {
    let table = table_of_ten();
    assert_eq!(table.decode(&digest(b"delta")), Ok(b"delta".to_vec()));
}

#[test]
fn decode_recovers_every_seed() {
    let table = table_of_ten();
    for seed in corpus() {
        assert_eq!(table.decode(&digest(seed.as_bytes())), Ok(seed.as_bytes().to_vec()));
    }
}

#[test]
fn decode_recovers_a_plaintext_from_inside_a_chain() {
    let table = table_of_ten();
    let mut plain = b"delta".to_vec();
    for step in 0..20u32 {
        plain = reduce(&digest(&plain), step);
    }
    assert_eq!(plain, b"lkU:HGCj6cKMYrm9".to_vec());
    assert_eq!(table.decode(&digest(&plain)), Ok(plain));
}

#[test]
fn decode_gives_a_plaintext_with_the_digest_asked_for() {
    let table = table_of_ten();
    for seed in corpus() {
        let mut plain = seed.as_bytes().to_vec();
        for step in 0..50u32 {
            let target = digest(&plain);
            match table.decode(&target) {
                Ok(password) => assert_eq!(digest(&password), target),
                Err(e) => assert_eq!(e, LookupError::NotFoundInChain),
            }
            plain = reduce(&target, step);
        }
    }
}

#[test]
fn decode_of_a_stored_endpoint_does_not_replay_to_it() {
    let table = table_of_ten();
    let endpoint = unhex("7ad424ebe04626a356e7fc89d5dbbd92");
    assert_eq!(table.discover_chain(&endpoint), Ok((b"delta".to_vec(), endpoint.clone())));
    assert_eq!(table.decode(&endpoint), Err(LookupError::NotFoundInChain));
}

#[test]
fn decode_of_a_digest_on_no_chain_is_not_found() {
    let table = table_of_ten();
    assert_eq!(table.decode(&digest(b"never stored")), Err(LookupError::NotFound));
    assert_eq!(table.decode(&[0u8; 16]), Err(LookupError::NotFound));
    assert_eq!(table.discover_chain(&[0u8; 16]), Err(LookupError::NotFound));
}

#[test]
fn decode_in_an_empty_table_is_not_found() {
    let table = Rainbow::create(0, 4, None).unwrap();
    assert_eq!(table.decode(&digest(b"delta")), Err(LookupError::NotFound));
}

#[test]
fn decode_refuses_what_is_no_digest() {
    let table = table_of_ten();
    assert_eq!(table.decode(&[]), Err(LookupError::MalformedDigest));
    assert_eq!(table.decode(&[0u8; 15]), Err(LookupError::MalformedDigest));
    assert_eq!(table.decode(&[0u8; 17]), Err(LookupError::MalformedDigest));
    assert_eq!(table.discover_chain(&[0u8; 15]), Err(LookupError::MalformedDigest));
}

#[test]
fn discover_chain_returns_the_entry_of_the_chain() {
    let table = table_of_ten();
    assert_eq!(
        table.discover_chain(&digest(b"golf")),
        Ok((b"golf".to_vec(), unhex("d4a5e50bb7c9b8e703e985402e551b11")))
    );
}

#[test]
fn discover_chain_prefers_the_first_of_equal_endpoints() {
    let endpoint = generate_chain(b"delta", 50).unwrap();
    let table = Rainbow::from_parts(
        3,
        50,
        vec![
            (b"echo".to_vec(), generate_chain(b"echo", 50).unwrap()),
            (b"twin".to_vec(), endpoint.clone()),
            (b"delta".to_vec(), endpoint.clone()),
        ],
    );
    assert_eq!(table.discover_chain(&digest(b"delta")), Ok((b"twin".to_vec(), endpoint)));
    assert_eq!(table.decode(&digest(b"delta")), Err(LookupError::NotFoundInChain));
}

#[test]
fn discover_chain_prefers_the_latest_position() {
    let target = digest(b"delta");
    let late = jrainbow::utils::finish_chain(&md5::compute(b"delta").into(), 30, 50).to_vec();
    let table = Rainbow::from_parts(
        2,
        50,
        vec![
            (b"delta".to_vec(), generate_chain(b"delta", 50).unwrap()),
            (b"late".to_vec(), late.clone()),
        ],
    );
    assert_eq!(table.discover_chain(&target), Ok((b"late".to_vec(), late)));
}

#[test]
fn probe_tests_one_position() {
    let table = table_of_ten();
    let target: [u8; 16] = md5::compute(b"delta").into();
    assert_eq!(table.probe(&target, 0), Some(3));
    assert_eq!(table.probe(&target, 1), None);
    assert_eq!(table.probe(&target, 50), None);
    let mut endpoint = [0u8; 16];
    endpoint.copy_from_slice(&table.rainbow_table[7].1);
    assert_eq!(table.probe(&endpoint, 50), Some(7));
    assert_eq!(table.probe(&endpoint, 60), Some(7));
}

#[test]
fn find_endpoint_gives_the_first_entry_that_ends_there() {
    let table = Rainbow::from_parts(
        3,
        1,
        vec![(b"a".to_vec(), vec![1, 2]), (b"b".to_vec(), vec![3]), (b"c".to_vec(), vec![1, 2])],
    );
    assert_eq!(table.find_endpoint(&[1, 2]), Some(0));
    assert_eq!(table.find_endpoint(&[3]), Some(1));
    assert_eq!(table.find_endpoint(&[1]), None);
    assert_eq!(table.find_endpoint(&[1, 2, 3]), None);
    assert_eq!(table.find_endpoint(&[]), None);
}

#[test]
fn recover_password_replays_the_chain() {
    let table = table_of_ten();
    assert_eq!(table.recover_password(b"delta", &digest(b"delta")), Ok(b"delta".to_vec()));
    let second = reduce(&digest(b"delta"), 0);
    assert_eq!(table.recover_password(b"delta", &digest(&second)), Ok(second));
}

#[test]
fn recover_password_stops_before_the_endpoint() {
    let table = table_of_ten();
    let mut plain = b"delta".to_vec();
    for step in 0..49u32 {
        plain = reduce(&digest(&plain), step);
    }
    assert_eq!(table.recover_password(b"delta", &digest(&plain)), Ok(plain.clone()));
    let last = reduce(&digest(&plain), 49);
    assert_eq!(digest(&last), table.rainbow_table[3].1);
    assert_eq!(
        table.recover_password(b"delta", &digest(&last)),
        Err(LookupError::NotFoundInChain)
    );
}

#[test]
fn recover_password_fails_off_the_chain() {
    let table = table_of_ten();
    assert_eq!(
        table.recover_password(b"delta", &digest(b"echo")),
        Err(LookupError::NotFoundInChain)
    );
    assert_eq!(table.recover_password(b"delta", &[1, 2, 3]), Err(LookupError::NotFoundInChain));
}

#[test]
fn a_table_of_length_zero_finds_only_its_endpoints() {
    let table = Rainbow::from_parts(1, 0, vec![(b"x".to_vec(), digest(b"x"))]);
    assert_eq!(table.discover_chain(&digest(b"x")), Ok((b"x".to_vec(), digest(b"x"))));
    assert_eq!(table.decode(&digest(b"x")), Err(LookupError::NotFoundInChain));
    assert_eq!(table.decode(&digest(b"y")), Err(LookupError::NotFound));
}

#[test]
fn errors_have_their_messages() {
    assert_eq!(
        ConstructionError::SeedCountMismatch.message(),
        "seed vector must be the same length as the sample length of table"
    );
    assert_eq!(
        ConstructionError::ZeroLengthChain.message(),
        "A zero-lengthed chain is not much of a chain."
    );
    assert_eq!(
        LookupError::MalformedDigest.message(),
        "Unexpected input hash pointer format! Should be array of 16 u8s"
    );
    assert_eq!(LookupError::NotFound.message(), "Cannot find hash inside table.");
    assert_eq!(LookupError::NotFoundInChain.message(), "Cannot find hash inside backchain.");
}

#[test]
fn digest_of_takes_sixteen_bytes() {
    let bytes: Vec<u8> = (1..=16).collect();
    assert_eq!(digest_of(&bytes), Some([1, 2, 3, 4, 5, 6, 7, 8, 9, 10, 11, 12, 13, 14, 15, 16]));
    assert_eq!(digest_of(&bytes[..15]), None);
    assert_eq!(digest_of(&[0u8; 17]), None);
    assert_eq!(digest_of(&[]), None);
}

#[test]
fn check_request_tests_the_seed_count_then_the_length() {
    assert_eq!(Rainbow::check_request(3, 5, 3), Ok(()));
    assert_eq!(Rainbow::check_request(0, 1, 0), Ok(()));
    assert_eq!(Rainbow::check_request(3, 5, 2), Err(ConstructionError::SeedCountMismatch));
    assert_eq!(Rainbow::check_request(3, 0, 2), Err(ConstructionError::SeedCountMismatch));
    assert_eq!(Rainbow::check_request(3, 0, 3), Err(ConstructionError::ZeroLengthChain));
    assert_eq!(
        Rainbow::check_request(u32::MAX, 1, u32::MAX as usize),
        Ok(())
    );
}
