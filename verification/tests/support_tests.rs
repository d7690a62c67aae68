//! Tests of name checks, reserved-word scanning, default values, and the
//! chain endpoint tables.

use entity_schema::config::{NormalizedList, OptSingleOrList, SingleOrList};
use entity_schema::ident::{is_valid_folder_name, is_valid_postgres_db_name};
use entity_schema::networks::{
    get_default_hypersync_endpoint, network_to_skar_url, EthArchiveNetwork, HypersyncWorkerType,
    Network, NetworkError, SkarNetwork, SupportedNetwork,
};
use entity_schema::rescript::{to_capitalized_options, CapitalizedOptions, RescriptType};
use entity_schema::words::{are_contract_names_unique, check_reserved_words};

#[test]
fn valid_folder_name() {
    let valid_name = "my_folder";
    let is_valid = is_valid_folder_name(valid_name);
    assert!(is_valid);
}

#[test]
fn invalid_folder_name() {
    let invalid_name_star = "my*folder";
    let invalid_name_colon = "my:folder";
    let invalid_name_empty = "";

    let is_invalid_star = is_valid_folder_name(invalid_name_star);
    let is_invalid_colon = is_valid_folder_name(invalid_name_colon);
    let is_invalid_empty = is_valid_folder_name(invalid_name_empty);

    assert!(!is_invalid_star);
    assert!(!is_invalid_colon);
    assert!(!is_invalid_empty);
}

#[test]
fn valid_postgres_db_name() {
    let valid_name = "_helloPotter";
    let is_valid = is_valid_postgres_db_name(valid_name);
    assert_eq!(is_valid, true);
}

#[test]
fn invalid_postgres_db_name() {
    let invalid_name_space = "HarryShallNotReturn_to Hogwarts";
    let invalid_name_long = "Its_just_too_long_thats_what_she_said_michael_scott_the_office_series";
    let invalid_name_special_char = "HarryShallNotReturn_to Hogwart$";
    let is_not_valid_space = is_valid_postgres_db_name(invalid_name_space);
    let is_not_valid_long = is_valid_postgres_db_name(invalid_name_long);
    let is_not_special_chars = is_valid_postgres_db_name(invalid_name_special_char);
    assert_eq!(is_not_valid_space, false);
    assert_eq!(is_not_valid_long, false);
    assert_eq!(is_not_special_chars, false);
}

#[test]
fn test_unique_contract_names() {
    let contract_names = vec![
        "Hello".to_string(),
        "HelloWorld".to_string(),
        "Hello_World".to_string(),
        "Hello_World_123".to_string(),
        "Hello_World_123_".to_string(),
        "_Hello_World_123".to_string(),
        "_Hello_World_123_".to_string(),
    ];
    let unique_contract_names = are_contract_names_unique(&contract_names);
    assert_eq!(unique_contract_names, true);
}

#[test]
fn test_non_unique_contract_names() {
    let contract_names = vec![
        "Hello".to_string(),
        "HelloWorld".to_string(),
        "Hello-World".to_string(),
        "Hello-world".to_string(),
        "Hello_World_123_".to_string(),
        "_Hello_World_123".to_string(),
        "_Hello_World_123".to_string(),
    ];
    let non_unique_contract_names = are_contract_names_unique(&contract_names);
    assert_eq!(non_unique_contract_names, false);
}

#[test]
fn test_check_reserved_words() {
    let yaml_string = "This is a YAML string with reserved words like break, import, and match.";
    let flagged_words = check_reserved_words(yaml_string);
    assert_eq!(flagged_words, vec!["with", "break", "import", "and", "match"]);
}

#[test]
fn test_check_no_reserved_words() {
    let yaml_string =
        "This is a YAML string without reserved words but has words like avocado plus mayo.";
    let flagged_words = check_reserved_words(yaml_string);
    let empty_vec: Vec<String> = Vec::new();
    assert_eq!(flagged_words, empty_vec);
}

#[test]
fn repeated_reserved_words_are_each_reported() {
    let flagged = check_reserved_words("break stuff, break_it, and break again");
    assert_eq!(flagged, vec!["break", "and", "break"]);
}

#[test]
fn all_supported_chain_networks_have_a_skar_or_eth_archive_network() {
    for network in SupportedNetwork::all() {
        let network_name = Network::from_supported(network);
        let skar_url = SkarNetwork::try_from_network(network_name).is_some();
        let eth_archive_url = EthArchiveNetwork::try_from_network(network_name).is_some();

        assert!(
            skar_url || eth_archive_url,
            "{:?} does not have a skar or eth_archive_url",
            network
        );
    }
}

#[test]
fn all_supported_chain_ids_return_a_hypersync_endpoint() {
    for network in SupportedNetwork::all() {
        let _ = get_default_hypersync_endpoint(network.chain_id()).unwrap();
    }
}

#[test]
fn hypersync_endpoint_values() {
    let mainnet = get_default_hypersync_endpoint(1).unwrap();
    assert_eq!(mainnet.endpoint_url, "https://eth.hypersync.xyz");
    assert_eq!(mainnet.worker_type, HypersyncWorkerType::Skar);

    let avalanche = get_default_hypersync_endpoint(43114).unwrap();
    assert_eq!(avalanche.endpoint_url, "http://46.4.5.110:72");
    assert_eq!(avalanche.worker_type, HypersyncWorkerType::EthArchive);

    assert_eq!(get_default_hypersync_endpoint(2), Err(NetworkError::UnknownNetworkId(2)));

    assert_eq!(network_to_skar_url(&SkarNetwork::Base), "https://base.hypersync.xyz");
}

#[test]
fn rescript_defaults_and_decoded_strings() {
    assert_eq!(RescriptType::Int.get_default_value_rescript(), "0");
    assert_eq!(RescriptType::Bool.get_default_value_non_rescript(), "false");
    assert_eq!(RescriptType::BigInt.get_default_value_rescript(), "Ethers.BigInt.zero");
    assert_eq!(RescriptType::BigInt.get_default_value_non_rescript(), "0n");
    assert_eq!(RescriptType::String.get_default_value_rescript(), "\"foo\"");
    assert_eq!(RescriptType::ID.get_default_value_non_rescript(), "\"my_id\"");
    assert_eq!(
        RescriptType::Array(Box::new(RescriptType::Int)).get_default_value_rescript(),
        "[]"
    );
    assert_eq!(
        RescriptType::Option(Box::new(RescriptType::Int)).get_default_value_rescript(),
        "None"
    );
    assert_eq!(
        RescriptType::Option(Box::new(RescriptType::Int)).get_default_value_non_rescript(),
        "null"
    );

    let tuple = RescriptType::Tuple(vec![RescriptType::Int, RescriptType::Bool]);
    assert_eq!(tuple.to_string(), "(int, bool)");
    assert_eq!(tuple.get_default_value_rescript(), "(0, false)");
    assert_eq!(tuple.get_default_value_non_rescript(), "[0, false]");
    assert_eq!(
        tuple.to_string_decoded_skar(),
        "HyperSyncClient.Decoder.decodedSolType<(HyperSyncClient.Decoder.decodedSolType<int>, \
         HyperSyncClient.Decoder.decodedSolType<bool>)>"
    );

    let array = RescriptType::Array(Box::new(RescriptType::Int));
    assert_eq!(
        array.to_string_decoded_skar(),
        "array<HyperSyncClient.Decoder.decodedSolType<HyperSyncClient.Decoder.decodedSolType<int>>>"
    );

    let variant = RescriptType::EnumVariant(to_capitalized_options("TestEnum"));
    assert_eq!(variant.to_string(), "Enums.testEnum");
    assert_eq!(variant.get_default_value_rescript(), "Enums.testEnumDefault");
    assert_eq!(variant.get_default_value_non_rescript(), "testEnumDefault");
}

#[test]
fn capitalization_both_ways() {
    let opts: CapitalizedOptions = to_capitalized_options("testEnum");
    assert_eq!(opts.capitalized, "TestEnum");
    assert_eq!(opts.uncapitalized, "testEnum");
    let empty = to_capitalized_options("");
    assert_eq!(empty.capitalized, "");
    assert_eq!(empty.uncapitalized, "");
}

#[test]
fn normalized_lists() {
    let nothing: OptSingleOrList<String> = OptSingleOrList(None);
    assert_eq!(nothing.to_normalized_list(), NormalizedList::from(vec![]));

    let single = OptSingleOrList(Some(SingleOrList::Single("0x123".to_string())));
    assert_eq!(single.to_normalized_list(), NormalizedList::from_single("0x123".to_string()));

    let many = OptSingleOrList(Some(SingleOrList::List(vec![
        "0x123".to_string(),
        "0x456".to_string(),
    ])));
    assert_eq!(
        many.to_normalized_list(),
        NormalizedList::from(vec!["0x123".to_string(), "0x456".to_string()])
    );
}
