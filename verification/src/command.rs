use vstd::prelude::*;

use vstd::string::StringExecFns;

verus! {

/// The character for one decimal (or low hexadecimal) digit.
pub open spec fn spec_digit(d: int) -> char {
    if d == 0 {
        '0'
    } else if d == 1 {
        '1'
    } else if d == 2 {
        '2'
    } else if d == 3 {
        '3'
    } else if d == 4 {
        '4'
    } else if d == 5 {
        '5'
    } else if d == 6 {
        '6'
    } else if d == 7 {
        '7'
    } else if d == 8 {
        '8'
    } else if d == 9 {
        '9'
    } else if d == 10 {
        'a'
    } else if d == 11 {
        'b'
    } else if d == 12 {
        'c'
    } else if d == 13 {
        'd'
    } else if d == 14 {
        'e'
    } else {
        'f'
    }
}

/// The decimal rendering of a non-negative integer, most significant digit
/// first, without leading zeros.
pub open spec fn spec_dec(n: int) -> Seq<char>
    decreases n,
{
    if n < 10 {
        seq![spec_digit(n)]
    } else {
        spec_dec(n / 10).push(spec_digit(n % 10))
    }
}

/// The lower-case hexadecimal rendering of a non-negative integer, most
/// significant digit first, without leading zeros.
pub open spec fn spec_hex(n: int) -> Seq<char>
    decreases n,
{
    if n < 16 {
        seq![spec_digit(n)]
    } else {
        spec_hex(n / 16).push(spec_digit(n % 16))
    }
}

/// One digit as a string slice.
fn digit_str(d: u8) -> (s: &'static str)
    requires
        d < 16,
    ensures
        s@ == seq![spec_digit(d as int)],
{
    proof {
        reveal_strlit("0");
        reveal_strlit("1");
        reveal_strlit("2");
        reveal_strlit("3");
        reveal_strlit("4");
        reveal_strlit("5");
        reveal_strlit("6");
        reveal_strlit("7");
        reveal_strlit("8");
        reveal_strlit("9");
        reveal_strlit("a");
        reveal_strlit("b");
        reveal_strlit("c");
        reveal_strlit("d");
        reveal_strlit("e");
        reveal_strlit("f");
        assert("0"@ =~= seq!['0']);
        assert("1"@ =~= seq!['1']);
        assert("2"@ =~= seq!['2']);
        assert("3"@ =~= seq!['3']);
        assert("4"@ =~= seq!['4']);
        assert("5"@ =~= seq!['5']);
        assert("6"@ =~= seq!['6']);
        assert("7"@ =~= seq!['7']);
        assert("8"@ =~= seq!['8']);
        assert("9"@ =~= seq!['9']);
        assert("a"@ =~= seq!['a']);
        assert("b"@ =~= seq!['b']);
        assert("c"@ =~= seq!['c']);
        assert("d"@ =~= seq!['d']);
        assert("e"@ =~= seq!['e']);
        assert("f"@ =~= seq!['f']);
    }
    if d == 0 {
        "0"
    } else if d == 1 {
        "1"
    } else if d == 2 {
        "2"
    } else if d == 3 {
        "3"
    } else if d == 4 {
        "4"
    } else if d == 5 {
        "5"
    } else if d == 6 {
        "6"
    } else if d == 7 {
        "7"
    } else if d == 8 {
        "8"
    } else if d == 9 {
        "9"
    } else if d == 10 {
        "a"
    } else if d == 11 {
        "b"
    } else if d == 12 {
        "c"
    } else if d == 13 {
        "d"
    } else if d == 14 {
        "e"
    } else {
        "f"
    }
}

/// Render an integer in decimal.
pub fn u64_to_string(n: u64) -> (s: String)
    ensures
        s@ == spec_dec(n as int),
    decreases n,
{
    if n < 10 {
        digit_str(n as u8).to_owned()
    } else {
        let rest = u64_to_string(n / 10);
        let mut s = rest;
        s.append(digit_str((n % 10) as u8));
        proof {
            assert(spec_dec((n / 10) as int) + seq![spec_digit((n % 10) as int)] =~= spec_dec(
                (n / 10) as int,
            ).push(spec_digit((n % 10) as int)));
        }
        s
    }
}

/// Render an integer in lower-case hexadecimal.
pub fn u32_to_hex_string(n: u32) -> (s: String)
    ensures
        s@ == spec_hex(n as int),
    decreases n,
{
    if n < 16 {
        digit_str(n as u8).to_owned()
    } else {
        let rest = u32_to_hex_string(n / 16);
        let mut s = rest;
        s.append(digit_str((n % 16) as u8));
        proof {
            assert(spec_hex((n / 16) as int) + seq![spec_digit((n % 16) as int)] =~= spec_hex(
                (n / 16) as int,
            ).push(spec_digit((n % 16) as int)));
        }
        s
    }
}

/// Whether a character is a decimal digit.
pub open spec fn spec_is_digit(c: char) -> bool {
    '0' <= c && c <= '9'
}

/// The numeric value of a decimal digit character.
pub open spec fn spec_digit_val(c: char) -> int {
    c as u32 - 48
}

/// Whether a character sequence consists of decimal digits only.
pub open spec fn spec_all_digits(s: Seq<char>) -> bool {
    forall|i: int| 0 <= i < s.len() ==> spec_is_digit(#[trigger] s[i])
}

/// The numeric value of a digit sequence read in decimal.
pub open spec fn spec_dec_val(s: Seq<char>) -> int
    decreases s.len(),
{
    if s.len() == 0 {
        0
    } else {
        spec_dec_val(s.drop_last()) * 10 + spec_digit_val(s.last())
    }
}

proof fn lemma_dec_val_nonneg(s: Seq<char>)
    requires
        spec_all_digits(s),
    ensures
        spec_dec_val(s) >= 0,
    decreases s.len(),
{
    if s.len() > 0 {
        assert forall|i: int| 0 <= i < s.drop_last().len() implies spec_is_digit(
            #[trigger] s.drop_last()[i],
        ) by {
            assert(s.drop_last()[i] == s[i]);
        }
        lemma_dec_val_nonneg(s.drop_last());
        assert(spec_is_digit(s.last()));
    }
}

proof fn lemma_dec_val_take_extends(s: Seq<char>, i: int)
    requires
        spec_all_digits(s),
        0 <= i <= s.len(),
    ensures
        spec_dec_val(s.take(i)) <= spec_dec_val(s),
    decreases s.len() - i,
{
    assert forall|k: int, j: int| 0 <= j <= s.len() && 0 <= k < s.take(j).len() implies
        spec_is_digit(#[trigger] s.take(j)[k]) by {
        assert(s.take(j)[k] == s[k]);
    }
    if i == s.len() {
        assert(s.take(i) =~= s);
    } else {
        assert(s.take(i + 1).drop_last() =~= s.take(i));
        assert(s.take(i + 1).last() == s[i]);
        lemma_dec_val_nonneg(s.take(i));
        assert(spec_dec_val(s.take(i + 1)) == spec_dec_val(s.take(i)) * 10 + spec_digit_val(s[i]));
        lemma_dec_val_take_extends(s, i + 1);
    }
}

/// Parse a decimal number: the digits of the string read as an integer.
/// Succeeds exactly on non-empty all-digit strings whose value fits; a
/// leading sign is rejected, the string must be digits only.
pub fn parse_dec_u64(s: &str) -> (r: Option<u64>)
    ensures
        r matches Some(n) ==> s@.len() > 0 && spec_all_digits(s@) && n as int == spec_dec_val(s@),
        r is None ==> s@.len() == 0 || !spec_all_digits(s@) || spec_dec_val(s@) > u64::MAX,
{
    if !s.is_ascii() {
        proof {
            let i = choose|i: int|
                !(0 <= i < s@.len() ==> '\0' <= #[trigger] s@[i] <= '\u{7f}');
            assert(!spec_is_digit(s@[i]));
        }
        return None;
    }
    proof {
        vstd::string::is_ascii_spec_bytes(s);
    }
    let bytes = s.as_bytes();
    if bytes.len() == 0 {
        return None;
    }
    let n = bytes.len();
    let mut acc: u64 = 0;
    let mut i: usize = 0;
    while i < n
        invariant
            n == bytes@.len(),
            bytes@ =~= Seq::new(s@.len(), |k: int| s@[k] as u8),
            vstd::string::is_ascii(s),
            i <= n,
            forall|j: int| 0 <= j < i ==> spec_is_digit(#[trigger] s@[j]),
            acc as int == spec_dec_val(s@.take(i as int)),
        decreases n - i,
    {
        let b = bytes[i];
        proof {
            assert(s@[i as int] as u8 == b);
            assert('\0' <= s@[i as int] <= '\u{7f}');
            assert((s@[i as int] as u32) < 128);
            assert((s@[i as int] as u32) == b);
        }
        if b < 48 || b > 57 {
            proof {
                assert(!spec_is_digit(s@[i as int]));
            }
            return None;
        }
        let d = (b - 48) as u64;
        proof {
            assert(s@.take(i + 1).drop_last() =~= s@.take(i as int));
            assert(s@.take(i + 1).last() == s@[i as int]);
            assert(spec_dec_val(s@.take(i + 1)) == spec_dec_val(s@.take(i as int)) * 10
                + spec_digit_val(s@[i as int]));
            assert(spec_digit_val(s@[i as int]) == d as int);
        }
        let stepped = match acc.checked_mul(10) {
            Some(x) => x.checked_add(d),
            None => None,
        };
        match stepped {
            Some(next) => {
                acc = next;
            },
            None => {
                proof {
                    assert(spec_dec_val(s@.take(i + 1)) > u64::MAX);
                    if spec_all_digits(s@) {
                        lemma_dec_val_take_extends(s@, i + 1);
                    }
                }
                return None;
            },
        }
        i += 1;
    }
    proof {
        assert(s@.take(s@.len() as int) =~= s@);
    }
    Some(acc)
}

/// Identifier of a chain, as it appears on the command line.
pub struct ChainId(pub String);

/// Identifier a wallet was registered under.
pub struct WalletId(pub String);

/// The bech32 account address of a wallet, as the chain binary prints it.
pub struct WalletAddress(pub String);

/// The comma-separated rendering of a list of amounts, each amount written
/// as its value directly followed by its denomination.
pub open spec fn spec_amounts_str(s: Seq<(String, u64)>) -> Seq<char>
    decreases s.len(),
{
    if s.len() == 0 {
        Seq::empty()
    } else if s.len() == 1 {
        spec_dec(s[0].1 as int) + s[0].0@
    } else {
        spec_amounts_str(s.drop_last()) + ","@ + spec_dec(s.last().1 as int) + s.last().0@
    }
}

/// Describes how to drive one chain binary: where it lives, which chain it
/// serves, where its home directory is, and which ports it listens on.
/// The methods that merely assemble a command line return the argument list;
/// running the binary is the caller's concern.
pub struct ChainCommand {
    pub command_path: String,
    pub chain_id: ChainId,
    pub home_path: String,
    pub rpc_port: u16,
    pub grpc_port: u16,
    pub p2p_port: u16,
}

impl ChainCommand {
    pub fn new(
        command_path: String,
        chain_id: ChainId,
        home_path: String,
        rpc_port: u16,
        grpc_port: u16,
        p2p_port: u16,
    ) -> (r: Self)
        ensures
            r.command_path@ == command_path@,
            r.chain_id.0@ == chain_id.0@,
            r.home_path@ == home_path@,
            r.rpc_port == rpc_port,
            r.grpc_port == grpc_port,
            r.p2p_port == p2p_port,
    {
        ChainCommand { command_path, chain_id, home_path, rpc_port, grpc_port, p2p_port }
    }

    /// The HTTP address of the RPC endpoint.
    pub fn rpc_address(&self) -> (s: String)
        ensures
            s@ == "http://localhost:"@ + spec_dec(self.rpc_port as int),
    {
        let mut s = "http://localhost:".to_owned();
        let port = u64_to_string(self.rpc_port as u64);
        s.append(port.as_str());
        s
    }

    /// The websocket address of the RPC endpoint.
    pub fn websocket_address(&self) -> (s: String)
        ensures
            s@ == "ws://localhost:"@ + spec_dec(self.rpc_port as int) + "/websocket"@,
    {
        let mut s = "ws://localhost:".to_owned();
        let port = u64_to_string(self.rpc_port as u64);
        s.append(port.as_str());
        s.append("/websocket");
        s
    }

    /// The HTTP address of the gRPC endpoint.
    pub fn grpc_address(&self) -> (s: String)
        ensures
            s@ == "http://localhost:"@ + spec_dec(self.grpc_port as int),
    {
        let mut s = "http://localhost:".to_owned();
        let port = u64_to_string(self.grpc_port as u64);
        s.append(port.as_str());
        s
    }

    /// The TCP listen address handed to the binary for RPC.
    pub fn rpc_listen_address(&self) -> (s: String)
        ensures
            s@ == "tcp://localhost:"@ + spec_dec(self.rpc_port as int),
    {
        let mut s = "tcp://localhost:".to_owned();
        let port = u64_to_string(self.rpc_port as u64);
        s.append(port.as_str());
        s
    }

    /// The plain listen address handed to the binary for gRPC.
    pub fn grpc_listen_address(&self) -> (s: String)
        ensures
            s@ == "localhost:"@ + spec_dec(self.grpc_port as int),
    {
        let mut s = "localhost:".to_owned();
        let port = u64_to_string(self.grpc_port as u64);
        s.append(port.as_str());
        s
    }

    /// The argument list that asks the binary for its help text.
    pub fn help(&self) -> (r: Vec<String>)
        ensures
            r@.len() == 1,
            r@[0]@ == "--help"@,
    {
        let mut r: Vec<String> = Vec::new();
        r.push("--help".to_owned());
        r
    }

    /// The argument list that initializes the chain's home directory.
    pub fn initialize(&self) -> (r: Vec<String>)
        ensures
            r@.len() == 6,
            r@[0]@ == "--home"@,
            r@[1]@ == self.home_path@,
            r@[2]@ == "--chain-id"@,
            r@[3]@ == self.chain_id.0@,
            r@[4]@ == "init"@,
            r@[5]@ == self.chain_id.0@,
    {
        let mut r: Vec<String> = Vec::new();
        r.push("--home".to_owned());
        r.push(self.home_path.clone());
        r.push("--chain-id".to_owned());
        r.push(self.chain_id.0.clone());
        r.push("init".to_owned());
        r.push(self.chain_id.0.clone());
        r
    }

    /// The identifier under which a freshly drawn wallet is registered: the
    /// prefix, a dash, and the drawn number in hexadecimal.  Drawing the
    /// number and registering the wallet are the caller's concern.
    pub fn add_random_wallet(&self, prefix: &str, num: u32) -> (r: String)
        ensures
            r@ == prefix@ + "-"@ + spec_hex(num as int),
    {
        let mut s = prefix.to_owned();
        s.append("-");
        let hex = u32_to_hex_string(num);
        s.append(hex.as_str());
        s
    }

    /// The argument list that registers a wallet under an identifier with
    /// the test keyring backend, asking for JSON output.
    pub fn add_wallet_args(&self, wallet_id: &str) -> (r: Vec<String>)
        ensures
            r@.len() == 9,
            r@[0]@ == "--home"@,
            r@[1]@ == self.home_path@,
            r@[2]@ == "keys"@,
            r@[3]@ == "add"@,
            r@[4]@ == wallet_id@,
            r@[5]@ == "--keyring-backend"@,
            r@[6]@ == "test"@,
            r@[7]@ == "--output"@,
            r@[8]@ == "json"@,
    {
        let mut r: Vec<String> = Vec::new();
        r.push("--home".to_owned());
        r.push(self.home_path.clone());
        r.push("keys".to_owned());
        r.push("add".to_owned());
        r.push(wallet_id.to_owned());
        r.push("--keyring-backend".to_owned());
        r.push("test".to_owned());
        r.push("--output".to_owned());
        r.push("json".to_owned());
        r
    }

    /// The argument list that credits a genesis account with a list of
    /// amounts, rendered as one comma-separated string.
    pub fn add_genesis_account_args(
        &self,
        wallet: &WalletAddress,
        amounts: &Vec<(String, u64)>,
    ) -> (r: Vec<String>)
        ensures
            r@.len() == 5,
            r@[0]@ == "--home"@,
            r@[1]@ == self.home_path@,
            r@[2]@ == "add-genesis-account"@,
            r@[3]@ == wallet.0@,
            r@[4]@ == spec_amounts_str(amounts@),
    {
        let mut amounts_str = String::new();
        let mut i: usize = 0;
        while i < amounts.len()
            invariant
                i <= amounts.len(),
                amounts_str@ == spec_amounts_str(amounts@.take(i as int)),
            decreases amounts.len() - i,
        {
            if i > 0 {
                amounts_str.append(",");
            }
            let num = u64_to_string(amounts[i].1);
            amounts_str.append(num.as_str());
            amounts_str.append(amounts[i].0.as_str());
            proof {
                assert(amounts@.take(i + 1).drop_last() =~= amounts@.take(i as int));
                assert(amounts@.take(i + 1).last() == amounts@[i as int]);
            }
            i += 1;
        }
        proof {
            assert(amounts@.take(amounts@.len() as int) =~= amounts@);
        }
        let mut r: Vec<String> = Vec::new();
        r.push("--home".to_owned());
        r.push(self.home_path.clone());
        r.push("add-genesis-account".to_owned());
        r.push(wallet.0.clone());
        r.push(amounts_str);
        r
    }

    /// The argument list that registers a wallet's self-delegation as a
    /// genesis validator transaction.
    pub fn add_genesis_validator(
        &self,
        wallet_id: &WalletId,
        denom: &str,
        amount: u64,
    ) -> (r: Vec<String>)
        ensures
            r@.len() == 9,
            r@[0]@ == "--home"@,
            r@[1]@ == self.home_path@,
            r@[2]@ == "gentx"@,
            r@[3]@ == wallet_id.0@,
            r@[4]@ == "--keyring-backend"@,
            r@[5]@ == "test"@,
            r@[6]@ == "--chain-id"@,
            r@[7]@ == self.chain_id.0@,
            r@[8]@ == spec_dec(amount as int) + denom@,
    {
        let mut amount_str = u64_to_string(amount);
        amount_str.append(denom);
        let mut r: Vec<String> = Vec::new();
        r.push("--home".to_owned());
        r.push(self.home_path.clone());
        r.push("gentx".to_owned());
        r.push(wallet_id.0.clone());
        r.push("--keyring-backend".to_owned());
        r.push("test".to_owned());
        r.push("--chain-id".to_owned());
        r.push(self.chain_id.0.clone());
        r.push(amount_str);
        r
    }

    /// The argument list that folds the collected genesis transactions into
    /// the genesis file.
    pub fn collect_gen_txs(&self) -> (r: Vec<String>)
        ensures
            r@.len() == 3,
            r@[0]@ == "--home"@,
            r@[1]@ == self.home_path@,
            r@[2]@ == "collect-gentxs"@,
    {
        let mut r: Vec<String> = Vec::new();
        r.push("--home".to_owned());
        r.push(self.home_path.clone());
        r.push("collect-gentxs".to_owned());
        r
    }

    /// The argument list that starts the chain binary on this command's
    /// listen addresses, with pruning disabled.
    pub fn start_args(&self) -> (r: Vec<String>)
        ensures
            r@.len() == 9,
            r@[0]@ == "--home"@,
            r@[1]@ == self.home_path@,
            r@[2]@ == "start"@,
            r@[3]@ == "--pruning"@,
            r@[4]@ == "nothing"@,
            r@[5]@ == "--grpc.address"@,
            r@[6]@ == "localhost:"@ + spec_dec(self.grpc_port as int),
            r@[7]@ == "--rpc.laddr"@,
            r@[8]@ == "tcp://localhost:"@ + spec_dec(self.rpc_port as int),
    {
        let mut r: Vec<String> = Vec::new();
        r.push("--home".to_owned());
        r.push(self.home_path.clone());
        r.push("start".to_owned());
        r.push("--pruning".to_owned());
        r.push("nothing".to_owned());
        r.push("--grpc.address".to_owned());
        r.push(self.grpc_listen_address());
        r.push("--rpc.laddr".to_owned());
        r.push(self.rpc_listen_address());
        r
    }

    /// The argument list that queries a wallet's balance in one
    /// denomination, asking for JSON output.
    pub fn query_balance_args(&self, wallet_id: &WalletAddress, denom: &str) -> (r: Vec<String>)
        ensures
            r@.len() == 10,
            r@[0]@ == "--node"@,
            r@[1]@ == "tcp://localhost:"@ + spec_dec(self.rpc_port as int),
            r@[2]@ == "query"@,
            r@[3]@ == "bank"@,
            r@[4]@ == "balances"@,
            r@[5]@ == wallet_id.0@,
            r@[6]@ == "--denom"@,
            r@[7]@ == denom@,
            r@[8]@ == "--output"@,
            r@[9]@ == "json"@,
    {
        let mut r: Vec<String> = Vec::new();
        r.push("--node".to_owned());
        r.push(self.rpc_listen_address());
        r.push("query".to_owned());
        r.push("bank".to_owned());
        r.push("balances".to_owned());
        r.push(wallet_id.0.clone());
        r.push("--denom".to_owned());
        r.push(denom.to_owned());
        r.push("--output".to_owned());
        r.push("json".to_owned());
        r
    }
}

} // verus!
