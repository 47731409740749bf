//! The control-and-status-register name table: the 12-bit address of each
//! CSR mnemonic, consulted only when a CSR token is not a plain immediate.

use vstd::prelude::*;
use crate::assembler::text::spec_lower;
use crate::assembler::text::str_eq_lower;

verus! {

/// CSR address of a name, over the already case-folded name.
pub open spec fn spec_csr_address(s: Seq<char>) -> Option<u32> {
    if s == "mvendorid"@ {
        Some(0xF11u32)
    } else if s == "marchid"@ {
        Some(0xF12u32)
    } else if s == "mimpid"@ {
        Some(0xF13u32)
    } else if s == "mhartid"@ {
        Some(0xF14u32)
    } else if s == "mconfigptr"@ {
        Some(0xF15u32)
    } else if s == "mstatus"@ {
        Some(0x300u32)
    } else if s == "misa"@ {
        Some(0x301u32)
    } else if s == "medeleg"@ {
        Some(0x302u32)
    } else if s == "mideleg"@ {
        Some(0x303u32)
    } else if s == "mie"@ {
        Some(0x304u32)
    } else if s == "mtvec"@ {
        Some(0x305u32)
    } else if s == "mcounteren"@ {
        Some(0x306u32)
    } else if s == "mstatush"@ {
        Some(0x310u32)
    } else if s == "medelegh"@ {
        Some(0x312u32)
    } else if s == "mscratch"@ {
        Some(0x340u32)
    } else if s == "mepc"@ {
        Some(0x341u32)
    } else if s == "mcause"@ {
        Some(0x342u32)
    } else if s == "mtval"@ {
        Some(0x343u32)
    } else if s == "mip"@ {
        Some(0x344u32)
    } else if s == "mtinst"@ {
        Some(0x34Au32)
    } else if s == "mtval2"@ {
        Some(0x34Bu32)
    } else if s == "menvcfg"@ {
        Some(0x30Au32)
    } else if s == "menvcfgh"@ {
        Some(0x31Au32)
    } else if s == "mseccfg"@ {
        Some(0x747u32)
    } else if s == "mseccfgh"@ {
        Some(0x757u32)
    } else if s == "pmpcfg0"@ {
        Some(0x3A0u32)
    } else if s == "pmpcfg1"@ {
        Some(0x3A1u32)
    } else if s == "pmpcfg2"@ {
        Some(0x3A2u32)
    } else if s == "pmpcfg3"@ {
        Some(0x3A3u32)
    } else if s == "pmpcfg4"@ {
        Some(0x3A4u32)
    } else if s == "pmpcfg5"@ {
        Some(0x3A5u32)
    } else if s == "pmpcfg6"@ {
        Some(0x3A6u32)
    } else if s == "pmpcfg7"@ {
        Some(0x3A7u32)
    } else if s == "pmpcfg8"@ {
        Some(0x3A8u32)
    } else if s == "pmpcfg9"@ {
        Some(0x3A9u32)
    } else if s == "pmpcfg10"@ {
        Some(0x3AAu32)
    } else if s == "pmpcfg11"@ {
        Some(0x3ABu32)
    } else if s == "pmpcfg12"@ {
        Some(0x3ACu32)
    } else if s == "pmpcfg13"@ {
        Some(0x3ADu32)
    } else if s == "pmpcfg14"@ {
        Some(0x3AEu32)
    } else if s == "pmpcfg15"@ {
        Some(0x3AFu32)
    } else if s == "pmpaddr0"@ {
        Some(0x3B0u32)
    } else if s == "pmpaddr1"@ {
        Some(0x3B1u32)
    } else if s == "pmpaddr2"@ {
        Some(0x3B2u32)
    } else if s == "pmpaddr3"@ {
        Some(0x3B3u32)
    } else if s == "pmpaddr4"@ {
        Some(0x3B4u32)
    } else if s == "pmpaddr5"@ {
        Some(0x3B5u32)
    } else if s == "pmpaddr6"@ {
        Some(0x3B6u32)
    } else if s == "pmpaddr7"@ {
        Some(0x3B7u32)
    } else if s == "pmpaddr8"@ {
        Some(0x3B8u32)
    } else if s == "pmpaddr9"@ {
        Some(0x3B9u32)
    } else if s == "pmpaddr10"@ {
        Some(0x3BAu32)
    } else if s == "pmpaddr11"@ {
        Some(0x3BBu32)
    } else if s == "pmpaddr12"@ {
        Some(0x3BCu32)
    } else if s == "pmpaddr13"@ {
        Some(0x3BDu32)
    } else if s == "pmpaddr14"@ {
        Some(0x3BEu32)
    } else if s == "pmpaddr15"@ {
        Some(0x3BFu32)
    } else if s == "pmpaddr16"@ {
        Some(0x3C0u32)
    } else if s == "pmpaddr17"@ {
        Some(0x3C1u32)
    } else if s == "pmpaddr18"@ {
        Some(0x3C2u32)
    } else if s == "pmpaddr19"@ {
        Some(0x3C3u32)
    } else if s == "pmpaddr20"@ {
        Some(0x3C4u32)
    } else if s == "pmpaddr21"@ {
        Some(0x3C5u32)
    } else if s == "pmpaddr22"@ {
        Some(0x3C6u32)
    } else if s == "pmpaddr23"@ {
        Some(0x3C7u32)
    } else if s == "pmpaddr24"@ {
        Some(0x3C8u32)
    } else if s == "pmpaddr25"@ {
        Some(0x3C9u32)
    } else if s == "pmpaddr26"@ {
        Some(0x3CAu32)
    } else if s == "pmpaddr27"@ {
        Some(0x3CBu32)
    } else if s == "pmpaddr28"@ {
        Some(0x3CCu32)
    } else if s == "pmpaddr29"@ {
        Some(0x3CDu32)
    } else if s == "pmpaddr30"@ {
        Some(0x3CEu32)
    } else if s == "pmpaddr31"@ {
        Some(0x3CFu32)
    } else if s == "pmpaddr32"@ {
        Some(0x3D0u32)
    } else if s == "pmpaddr33"@ {
        Some(0x3D1u32)
    } else if s == "pmpaddr34"@ {
        Some(0x3D2u32)
    } else if s == "pmpaddr35"@ {
        Some(0x3D3u32)
    } else if s == "pmpaddr36"@ {
        Some(0x3D4u32)
    } else if s == "pmpaddr37"@ {
        Some(0x3D5u32)
    } else if s == "pmpaddr38"@ {
        Some(0x3D6u32)
    } else if s == "pmpaddr39"@ {
        Some(0x3D7u32)
    } else if s == "pmpaddr40"@ {
        Some(0x3D8u32)
    } else if s == "pmpaddr41"@ {
        Some(0x3D9u32)
    } else if s == "pmpaddr42"@ {
        Some(0x3DAu32)
    } else if s == "pmpaddr43"@ {
        Some(0x3DBu32)
    } else if s == "pmpaddr44"@ {
        Some(0x3DCu32)
    } else if s == "pmpaddr45"@ {
        Some(0x3DDu32)
    } else if s == "pmpaddr46"@ {
        Some(0x3DEu32)
    } else if s == "pmpaddr47"@ {
        Some(0x3DFu32)
    } else if s == "pmpaddr48"@ {
        Some(0x3E0u32)
    } else if s == "pmpaddr49"@ {
        Some(0x3E1u32)
    } else if s == "pmpaddr50"@ {
        Some(0x3E2u32)
    } else if s == "pmpaddr51"@ {
        Some(0x3E3u32)
    } else if s == "pmpaddr52"@ {
        Some(0x3E4u32)
    } else if s == "pmpaddr53"@ {
        Some(0x3E5u32)
    } else if s == "pmpaddr54"@ {
        Some(0x3E6u32)
    } else if s == "pmpaddr55"@ {
        Some(0x3E7u32)
    } else if s == "pmpaddr56"@ {
        Some(0x3E8u32)
    } else if s == "pmpaddr57"@ {
        Some(0x3E9u32)
    } else if s == "pmpaddr58"@ {
        Some(0x3EAu32)
    } else if s == "pmpaddr59"@ {
        Some(0x3EBu32)
    } else if s == "pmpaddr60"@ {
        Some(0x3ECu32)
    } else if s == "pmpaddr61"@ {
        Some(0x3EDu32)
    } else if s == "pmpaddr62"@ {
        Some(0x3EEu32)
    } else if s == "pmpaddr63"@ {
        Some(0x3EFu32)
    } else if s == "mstateen0"@ {
        Some(0x30Cu32)
    } else if s == "mstateen1"@ {
        Some(0x30Du32)
    } else if s == "mstateen2"@ {
        Some(0x30Eu32)
    } else if s == "mstateen3"@ {
        Some(0x30Fu32)
    } else if s == "mstateen0h"@ {
        Some(0x31Cu32)
    } else if s == "mstateen1h"@ {
        Some(0x31Du32)
    } else if s == "mstateen2h"@ {
        Some(0x31Eu32)
    } else if s == "mstateen3h"@ {
        Some(0x31Fu32)
    } else if s == "mnscratch"@ {
        Some(0x740u32)
    } else if s == "mnepc"@ {
        Some(0x741u32)
    } else if s == "mncause"@ {
        Some(0x742u32)
    } else if s == "mnstatus"@ {
        Some(0x744u32)
    } else if s == "mcycle"@ {
        Some(0xB00u32)
    } else if s == "minstret"@ {
        Some(0xB02u32)
    } else if s == "mhpmcounter3"@ {
        Some(0xB03u32)
    } else if s == "mhpmcounter4"@ {
        Some(0xB04u32)
    } else if s == "mhpmcounter5"@ {
        Some(0xB05u32)
    } else if s == "mhpmcounter6"@ {
        Some(0xB06u32)
    } else if s == "mhpmcounter7"@ {
        Some(0xB07u32)
    } else if s == "mhpmcounter8"@ {
        Some(0xB08u32)
    } else if s == "mhpmcounter9"@ {
        Some(0xB09u32)
    } else if s == "mhpmcounter10"@ {
        Some(0xB0Au32)
    } else if s == "mhpmcounter11"@ {
        Some(0xB0Bu32)
    } else if s == "mhpmcounter12"@ {
        Some(0xB0Cu32)
    } else if s == "mhpmcounter13"@ {
        Some(0xB0Du32)
    } else if s == "mhpmcounter14"@ {
        Some(0xB0Eu32)
    } else if s == "mhpmcounter15"@ {
        Some(0xB0Fu32)
    } else if s == "mhpmcounter16"@ {
        Some(0xB10u32)
    } else if s == "mhpmcounter17"@ {
        Some(0xB11u32)
    } else if s == "mhpmcounter18"@ {
        Some(0xB12u32)
    } else if s == "mhpmcounter19"@ {
        Some(0xB13u32)
    } else if s == "mhpmcounter20"@ {
        Some(0xB14u32)
    } else if s == "mhpmcounter21"@ {
        Some(0xB15u32)
    } else if s == "mhpmcounter22"@ {
        Some(0xB16u32)
    } else if s == "mhpmcounter23"@ {
        Some(0xB17u32)
    } else if s == "mhpmcounter24"@ {
        Some(0xB18u32)
    } else if s == "mhpmcounter25"@ {
        Some(0xB19u32)
    } else if s == "mhpmcounter26"@ {
        Some(0xB1Au32)
    } else if s == "mhpmcounter27"@ {
        Some(0xB1Bu32)
    } else if s == "mhpmcounter28"@ {
        Some(0xB1Cu32)
    } else if s == "mhpmcounter29"@ {
        Some(0xB1Du32)
    } else if s == "mhpmcounter30"@ {
        Some(0xB1Eu32)
    } else if s == "mhpmcounter31"@ {
        Some(0xB1Fu32)
    } else if s == "mcycleh"@ {
        Some(0xB80u32)
    } else if s == "minstreth"@ {
        Some(0xB82u32)
    } else if s == "mhpmcounter3h"@ {
        Some(0xB83u32)
    } else if s == "mhpmcounter4h"@ {
        Some(0xB84u32)
    } else if s == "mhpmcounter5h"@ {
        Some(0xB85u32)
    } else if s == "mhpmcounter6h"@ {
        Some(0xB86u32)
    } else if s == "mhpmcounter7h"@ {
        Some(0xB87u32)
    } else if s == "mhpmcounter8h"@ {
        Some(0xB88u32)
    } else if s == "mhpmcounter9h"@ {
        Some(0xB89u32)
    } else if s == "mhpmcounter10h"@ {
        Some(0xB8Au32)
    } else if s == "mhpmcounter11h"@ {
        Some(0xB8Bu32)
    } else if s == "mhpmcounter12h"@ {
        Some(0xB8Cu32)
    } else if s == "mhpmcounter13h"@ {
        Some(0xB8Du32)
    } else if s == "mhpmcounter14h"@ {
        Some(0xB8Eu32)
    } else if s == "mhpmcounter15h"@ {
        Some(0xB8Fu32)
    } else if s == "mhpmcounter16h"@ {
        Some(0xB90u32)
    } else if s == "mhpmcounter17h"@ {
        Some(0xB91u32)
    } else if s == "mhpmcounter18h"@ {
        Some(0xB92u32)
    } else if s == "mhpmcounter19h"@ {
        Some(0xB93u32)
    } else if s == "mhpmcounter20h"@ {
        Some(0xB94u32)
    } else if s == "mhpmcounter21h"@ {
        Some(0xB95u32)
    } else if s == "mhpmcounter22h"@ {
        Some(0xB96u32)
    } else if s == "mhpmcounter23h"@ {
        Some(0xB97u32)
    } else if s == "mhpmcounter24h"@ {
        Some(0xB98u32)
    } else if s == "mhpmcounter25h"@ {
        Some(0xB99u32)
    } else if s == "mhpmcounter26h"@ {
        Some(0xB9Au32)
    } else if s == "mhpmcounter27h"@ {
        Some(0xB9Bu32)
    } else if s == "mhpmcounter28h"@ {
        Some(0xB9Cu32)
    } else if s == "mhpmcounter29h"@ {
        Some(0xB9Du32)
    } else if s == "mhpmcounter30h"@ {
        Some(0xB9Eu32)
    } else if s == "mhpmcounter31h"@ {
        Some(0xB9Fu32)
    } else if s == "mcountinhibit"@ {
        Some(0x320u32)
    } else if s == "mhpmevent3"@ {
        Some(0x323u32)
    } else if s == "mhpmevent4"@ {
        Some(0x324u32)
    } else if s == "mhpmevent5"@ {
        Some(0x325u32)
    } else if s == "mhpmevent6"@ {
        Some(0x326u32)
    } else if s == "mhpmevent7"@ {
        Some(0x327u32)
    } else if s == "mhpmevent8"@ {
        Some(0x328u32)
    } else if s == "mhpmevent9"@ {
        Some(0x329u32)
    } else if s == "mhpmevent10"@ {
        Some(0x32Au32)
    } else if s == "mhpmevent11"@ {
        Some(0x32Bu32)
    } else if s == "mhpmevent12"@ {
        Some(0x32Cu32)
    } else if s == "mhpmevent13"@ {
        Some(0x32Du32)
    } else if s == "mhpmevent14"@ {
        Some(0x32Eu32)
    } else if s == "mhpmevent15"@ {
        Some(0x32Fu32)
    } else if s == "mhpmevent16"@ {
        Some(0x330u32)
    } else if s == "mhpmevent17"@ {
        Some(0x331u32)
    } else if s == "mhpmevent18"@ {
        Some(0x332u32)
    } else if s == "mhpmevent19"@ {
        Some(0x333u32)
    } else if s == "mhpmevent20"@ {
        Some(0x334u32)
    } else if s == "mhpmevent21"@ {
        Some(0x335u32)
    } else if s == "mhpmevent22"@ {
        Some(0x336u32)
    } else if s == "mhpmevent23"@ {
        Some(0x337u32)
    } else if s == "mhpmevent24"@ {
        Some(0x338u32)
    } else if s == "mhpmevent25"@ {
        Some(0x339u32)
    } else if s == "mhpmevent26"@ {
        Some(0x33Au32)
    } else if s == "mhpmevent27"@ {
        Some(0x33Bu32)
    } else if s == "mhpmevent28"@ {
        Some(0x33Cu32)
    } else if s == "mhpmevent29"@ {
        Some(0x33Du32)
    } else if s == "mhpmevent30"@ {
        Some(0x33Eu32)
    } else if s == "mhpmevent31"@ {
        Some(0x33Fu32)
    } else if s == "mhpmevent3h"@ {
        Some(0x723u32)
    } else if s == "mhpmevent4h"@ {
        Some(0x724u32)
    } else if s == "mhpmevent5h"@ {
        Some(0x725u32)
    } else if s == "mhpmevent6h"@ {
        Some(0x726u32)
    } else if s == "mhpmevent7h"@ {
        Some(0x727u32)
    } else if s == "mhpmevent8h"@ {
        Some(0x728u32)
    } else if s == "mhpmevent9h"@ {
        Some(0x729u32)
    } else if s == "mhpmevent10h"@ {
        Some(0x72Au32)
    } else if s == "mhpmevent11h"@ {
        Some(0x72Bu32)
    } else if s == "mhpmevent12h"@ {
        Some(0x72Cu32)
    } else if s == "mhpmevent13h"@ {
        Some(0x72Du32)
    } else if s == "mhpmevent14h"@ {
        Some(0x72Eu32)
    } else if s == "mhpmevent15h"@ {
        Some(0x72Fu32)
    } else if s == "mhpmevent16h"@ {
        Some(0x730u32)
    } else if s == "mhpmevent17h"@ {
        Some(0x731u32)
    } else if s == "mhpmevent18h"@ {
        Some(0x732u32)
    } else if s == "mhpmevent19h"@ {
        Some(0x733u32)
    } else if s == "mhpmevent20h"@ {
        Some(0x734u32)
    } else if s == "mhpmevent21h"@ {
        Some(0x735u32)
    } else if s == "mhpmevent22h"@ {
        Some(0x736u32)
    } else if s == "mhpmevent23h"@ {
        Some(0x737u32)
    } else if s == "mhpmevent24h"@ {
        Some(0x738u32)
    } else if s == "mhpmevent25h"@ {
        Some(0x739u32)
    } else if s == "mhpmevent26h"@ {
        Some(0x73Au32)
    } else if s == "mhpmevent27h"@ {
        Some(0x73Bu32)
    } else if s == "mhpmevent28h"@ {
        Some(0x73Cu32)
    } else if s == "mhpmevent29h"@ {
        Some(0x73Du32)
    } else if s == "mhpmevent30h"@ {
        Some(0x73Eu32)
    } else if s == "mhpmevent31h"@ {
        Some(0x73Fu32)
    } else if s == "tselect"@ {
        Some(0x7A0u32)
    } else if s == "tdata1"@ {
        Some(0x7A1u32)
    } else if s == "tdata2"@ {
        Some(0x7A2u32)
    } else if s == "tdata3"@ {
        Some(0x7A3u32)
    } else if s == "mcontext"@ {
        Some(0x7A8u32)
    } else if s == "dcsr"@ {
        Some(0x7B0u32)
    } else if s == "dpc"@ {
        Some(0x7B1u32)
    } else if s == "dscratch0"@ {
        Some(0x7B2u32)
    } else if s == "dscratch1"@ {
        Some(0x7B3u32)
    } else {
        None
    }
}

/// Look `s` up in the CSR name table, case-insensitively.
#[verifier::rlimit(60)]
pub fn csr_address(s: &str) -> (r: Option<u32>)
    ensures
        r == spec_csr_address(spec_lower(s@)),
        r matches Some(a) ==> a <= 0xF15,
{
    if str_eq_lower(s, "mvendorid") {
        Some(0xF11)
    } else if str_eq_lower(s, "marchid") {
        Some(0xF12)
    } else if str_eq_lower(s, "mimpid") {
        Some(0xF13)
    } else if str_eq_lower(s, "mhartid") {
        Some(0xF14)
    } else if str_eq_lower(s, "mconfigptr") {
        Some(0xF15)
    } else if str_eq_lower(s, "mstatus") {
        Some(0x300)
    } else if str_eq_lower(s, "misa") {
        Some(0x301)
    } else if str_eq_lower(s, "medeleg") {
        Some(0x302)
    } else if str_eq_lower(s, "mideleg") {
        Some(0x303)
    } else if str_eq_lower(s, "mie") {
        Some(0x304)
    } else if str_eq_lower(s, "mtvec") {
        Some(0x305)
    } else if str_eq_lower(s, "mcounteren") {
        Some(0x306)
    } else if str_eq_lower(s, "mstatush") {
        Some(0x310)
    } else if str_eq_lower(s, "medelegh") {
        Some(0x312)
    } else if str_eq_lower(s, "mscratch") {
        Some(0x340)
    } else if str_eq_lower(s, "mepc") {
        Some(0x341)
    } else if str_eq_lower(s, "mcause") {
        Some(0x342)
    } else if str_eq_lower(s, "mtval") {
        Some(0x343)
    } else if str_eq_lower(s, "mip") {
        Some(0x344)
    } else if str_eq_lower(s, "mtinst") {
        Some(0x34A)
    } else if str_eq_lower(s, "mtval2") {
        Some(0x34B)
    } else if str_eq_lower(s, "menvcfg") {
        Some(0x30A)
    } else if str_eq_lower(s, "menvcfgh") {
        Some(0x31A)
    } else if str_eq_lower(s, "mseccfg") {
        Some(0x747)
    } else if str_eq_lower(s, "mseccfgh") {
        Some(0x757)
    } else if str_eq_lower(s, "pmpcfg0") {
        Some(0x3A0)
    } else if str_eq_lower(s, "pmpcfg1") {
        Some(0x3A1)
    } else if str_eq_lower(s, "pmpcfg2") {
        Some(0x3A2)
    } else if str_eq_lower(s, "pmpcfg3") {
        Some(0x3A3)
    } else if str_eq_lower(s, "pmpcfg4") {
        Some(0x3A4)
    } else if str_eq_lower(s, "pmpcfg5") {
        Some(0x3A5)
    } else if str_eq_lower(s, "pmpcfg6") {
        Some(0x3A6)
    } else if str_eq_lower(s, "pmpcfg7") {
        Some(0x3A7)
    } else if str_eq_lower(s, "pmpcfg8") {
        Some(0x3A8)
    } else if str_eq_lower(s, "pmpcfg9") {
        Some(0x3A9)
    } else if str_eq_lower(s, "pmpcfg10") {
        Some(0x3AA)
    } else if str_eq_lower(s, "pmpcfg11") {
        Some(0x3AB)
    } else if str_eq_lower(s, "pmpcfg12") {
        Some(0x3AC)
    } else if str_eq_lower(s, "pmpcfg13") {
        Some(0x3AD)
    } else if str_eq_lower(s, "pmpcfg14") {
        Some(0x3AE)
    } else if str_eq_lower(s, "pmpcfg15") {
        Some(0x3AF)
    } else if str_eq_lower(s, "pmpaddr0") {
        Some(0x3B0)
    } else if str_eq_lower(s, "pmpaddr1") {
        Some(0x3B1)
    } else if str_eq_lower(s, "pmpaddr2") {
        Some(0x3B2)
    } else if str_eq_lower(s, "pmpaddr3") {
        Some(0x3B3)
    } else if str_eq_lower(s, "pmpaddr4") {
        Some(0x3B4)
    } else if str_eq_lower(s, "pmpaddr5") {
        Some(0x3B5)
    } else if str_eq_lower(s, "pmpaddr6") {
        Some(0x3B6)
    } else if str_eq_lower(s, "pmpaddr7") {
        Some(0x3B7)
    } else if str_eq_lower(s, "pmpaddr8") {
        Some(0x3B8)
    } else if str_eq_lower(s, "pmpaddr9") {
        Some(0x3B9)
    } else if str_eq_lower(s, "pmpaddr10") {
        Some(0x3BA)
    } else if str_eq_lower(s, "pmpaddr11") {
        Some(0x3BB)
    } else if str_eq_lower(s, "pmpaddr12") {
        Some(0x3BC)
    } else if str_eq_lower(s, "pmpaddr13") {
        Some(0x3BD)
    } else if str_eq_lower(s, "pmpaddr14") {
        Some(0x3BE)
    } else if str_eq_lower(s, "pmpaddr15") {
        Some(0x3BF)
    } else if str_eq_lower(s, "pmpaddr16") {
        Some(0x3C0)
    } else if str_eq_lower(s, "pmpaddr17") {
        Some(0x3C1)
    } else if str_eq_lower(s, "pmpaddr18") {
        Some(0x3C2)
    } else if str_eq_lower(s, "pmpaddr19") {
        Some(0x3C3)
    } else if str_eq_lower(s, "pmpaddr20") {
        Some(0x3C4)
    } else if str_eq_lower(s, "pmpaddr21") {
        Some(0x3C5)
    } else if str_eq_lower(s, "pmpaddr22") {
        Some(0x3C6)
    } else if str_eq_lower(s, "pmpaddr23") {
        Some(0x3C7)
    } else if str_eq_lower(s, "pmpaddr24") {
        Some(0x3C8)
    } else if str_eq_lower(s, "pmpaddr25") {
        Some(0x3C9)
    } else if str_eq_lower(s, "pmpaddr26") {
        Some(0x3CA)
    } else if str_eq_lower(s, "pmpaddr27") {
        Some(0x3CB)
    } else if str_eq_lower(s, "pmpaddr28") {
        Some(0x3CC)
    } else if str_eq_lower(s, "pmpaddr29") {
        Some(0x3CD)
    } else if str_eq_lower(s, "pmpaddr30") {
        Some(0x3CE)
    } else if str_eq_lower(s, "pmpaddr31") {
        Some(0x3CF)
    } else if str_eq_lower(s, "pmpaddr32") {
        Some(0x3D0)
    } else if str_eq_lower(s, "pmpaddr33") {
        Some(0x3D1)
    } else if str_eq_lower(s, "pmpaddr34") {
        Some(0x3D2)
    } else if str_eq_lower(s, "pmpaddr35") {
        Some(0x3D3)
    } else if str_eq_lower(s, "pmpaddr36") {
        Some(0x3D4)
    } else if str_eq_lower(s, "pmpaddr37") {
        Some(0x3D5)
    } else if str_eq_lower(s, "pmpaddr38") {
        Some(0x3D6)
    } else if str_eq_lower(s, "pmpaddr39") {
        Some(0x3D7)
    } else if str_eq_lower(s, "pmpaddr40") {
        Some(0x3D8)
    } else if str_eq_lower(s, "pmpaddr41") {
        Some(0x3D9)
    } else if str_eq_lower(s, "pmpaddr42") {
        Some(0x3DA)
    } else if str_eq_lower(s, "pmpaddr43") {
        Some(0x3DB)
    } else if str_eq_lower(s, "pmpaddr44") {
        Some(0x3DC)
    } else if str_eq_lower(s, "pmpaddr45") {
        Some(0x3DD)
    } else if str_eq_lower(s, "pmpaddr46") {
        Some(0x3DE)
    } else if str_eq_lower(s, "pmpaddr47") {
        Some(0x3DF)
    } else if str_eq_lower(s, "pmpaddr48") {
        Some(0x3E0)
    } else if str_eq_lower(s, "pmpaddr49") {
        Some(0x3E1)
    } else if str_eq_lower(s, "pmpaddr50") {
        Some(0x3E2)
    } else if str_eq_lower(s, "pmpaddr51") {
        Some(0x3E3)
    } else if str_eq_lower(s, "pmpaddr52") {
        Some(0x3E4)
    } else if str_eq_lower(s, "pmpaddr53") {
        Some(0x3E5)
    } else if str_eq_lower(s, "pmpaddr54") {
        Some(0x3E6)
    } else if str_eq_lower(s, "pmpaddr55") {
        Some(0x3E7)
    } else if str_eq_lower(s, "pmpaddr56") {
        Some(0x3E8)
    } else if str_eq_lower(s, "pmpaddr57") {
        Some(0x3E9)
    } else if str_eq_lower(s, "pmpaddr58") {
        Some(0x3EA)
    } else if str_eq_lower(s, "pmpaddr59") {
        Some(0x3EB)
    } else if str_eq_lower(s, "pmpaddr60") {
        Some(0x3EC)
    } else if str_eq_lower(s, "pmpaddr61") {
        Some(0x3ED)
    } else if str_eq_lower(s, "pmpaddr62") {
        Some(0x3EE)
    } else if str_eq_lower(s, "pmpaddr63") {
        Some(0x3EF)
    } else if str_eq_lower(s, "mstateen0") {
        Some(0x30C)
    } else if str_eq_lower(s, "mstateen1") {
        Some(0x30D)
    } else if str_eq_lower(s, "mstateen2") {
        Some(0x30E)
    } else if str_eq_lower(s, "mstateen3") {
        Some(0x30F)
    } else if str_eq_lower(s, "mstateen0h") {
        Some(0x31C)
    } else if str_eq_lower(s, "mstateen1h") {
        Some(0x31D)
    } else if str_eq_lower(s, "mstateen2h") {
        Some(0x31E)
    } else if str_eq_lower(s, "mstateen3h") {
        Some(0x31F)
    } else if str_eq_lower(s, "mnscratch") {
        Some(0x740)
    } else if str_eq_lower(s, "mnepc") {
        Some(0x741)
    } else if str_eq_lower(s, "mncause") {
        Some(0x742)
    } else if str_eq_lower(s, "mnstatus") {
        Some(0x744)
    } else if str_eq_lower(s, "mcycle") {
        Some(0xB00)
    } else if str_eq_lower(s, "minstret") {
        Some(0xB02)
    } else if str_eq_lower(s, "mhpmcounter3") {
        Some(0xB03)
    } else if str_eq_lower(s, "mhpmcounter4") {
        Some(0xB04)
    } else if str_eq_lower(s, "mhpmcounter5") {
        Some(0xB05)
    } else if str_eq_lower(s, "mhpmcounter6") {
        Some(0xB06)
    } else if str_eq_lower(s, "mhpmcounter7") {
        Some(0xB07)
    } else if str_eq_lower(s, "mhpmcounter8") {
        Some(0xB08)
    } else if str_eq_lower(s, "mhpmcounter9") {
        Some(0xB09)
    } else if str_eq_lower(s, "mhpmcounter10") {
        Some(0xB0A)
    } else if str_eq_lower(s, "mhpmcounter11") {
        Some(0xB0B)
    } else if str_eq_lower(s, "mhpmcounter12") {
        Some(0xB0C)
    } else if str_eq_lower(s, "mhpmcounter13") {
        Some(0xB0D)
    } else if str_eq_lower(s, "mhpmcounter14") {
        Some(0xB0E)
    } else if str_eq_lower(s, "mhpmcounter15") {
        Some(0xB0F)
    } else if str_eq_lower(s, "mhpmcounter16") {
        Some(0xB10)
    } else if str_eq_lower(s, "mhpmcounter17") {
        Some(0xB11)
    } else if str_eq_lower(s, "mhpmcounter18") {
        Some(0xB12)
    } else if str_eq_lower(s, "mhpmcounter19") {
        Some(0xB13)
    } else if str_eq_lower(s, "mhpmcounter20") {
        Some(0xB14)
    } else if str_eq_lower(s, "mhpmcounter21") {
        Some(0xB15)
    } else if str_eq_lower(s, "mhpmcounter22") {
        Some(0xB16)
    } else if str_eq_lower(s, "mhpmcounter23") {
        Some(0xB17)
    } else if str_eq_lower(s, "mhpmcounter24") {
        Some(0xB18)
    } else if str_eq_lower(s, "mhpmcounter25") {
        Some(0xB19)
    } else if str_eq_lower(s, "mhpmcounter26") {
        Some(0xB1A)
    } else if str_eq_lower(s, "mhpmcounter27") {
        Some(0xB1B)
    } else if str_eq_lower(s, "mhpmcounter28") {
        Some(0xB1C)
    } else if str_eq_lower(s, "mhpmcounter29") {
        Some(0xB1D)
    } else if str_eq_lower(s, "mhpmcounter30") {
        Some(0xB1E)
    } else if str_eq_lower(s, "mhpmcounter31") {
        Some(0xB1F)
    } else if str_eq_lower(s, "mcycleh") {
        Some(0xB80)
    } else if str_eq_lower(s, "minstreth") {
        Some(0xB82)
    } else if str_eq_lower(s, "mhpmcounter3h") {
        Some(0xB83)
    } else if str_eq_lower(s, "mhpmcounter4h") {
        Some(0xB84)
    } else if str_eq_lower(s, "mhpmcounter5h") {
        Some(0xB85)
    } else if str_eq_lower(s, "mhpmcounter6h") {
        Some(0xB86)
    } else if str_eq_lower(s, "mhpmcounter7h") {
        Some(0xB87)
    } else if str_eq_lower(s, "mhpmcounter8h") {
        Some(0xB88)
    } else if str_eq_lower(s, "mhpmcounter9h") {
        Some(0xB89)
    } else if str_eq_lower(s, "mhpmcounter10h") {
        Some(0xB8A)
    } else if str_eq_lower(s, "mhpmcounter11h") {
        Some(0xB8B)
    } else if str_eq_lower(s, "mhpmcounter12h") {
        Some(0xB8C)
    } else if str_eq_lower(s, "mhpmcounter13h") {
        Some(0xB8D)
    } else if str_eq_lower(s, "mhpmcounter14h") {
        Some(0xB8E)
    } else if str_eq_lower(s, "mhpmcounter15h") {
        Some(0xB8F)
    } else if str_eq_lower(s, "mhpmcounter16h") {
        Some(0xB90)
    } else if str_eq_lower(s, "mhpmcounter17h") {
        Some(0xB91)
    } else if str_eq_lower(s, "mhpmcounter18h") {
        Some(0xB92)
    } else if str_eq_lower(s, "mhpmcounter19h") {
        Some(0xB93)
    } else if str_eq_lower(s, "mhpmcounter20h") {
        Some(0xB94)
    } else if str_eq_lower(s, "mhpmcounter21h") {
        Some(0xB95)
    } else if str_eq_lower(s, "mhpmcounter22h") {
        Some(0xB96)
    } else if str_eq_lower(s, "mhpmcounter23h") {
        Some(0xB97)
    } else if str_eq_lower(s, "mhpmcounter24h") {
        Some(0xB98)
    } else if str_eq_lower(s, "mhpmcounter25h") {
        Some(0xB99)
    } else if str_eq_lower(s, "mhpmcounter26h") {
        Some(0xB9A)
    } else if str_eq_lower(s, "mhpmcounter27h") {
        Some(0xB9B)
    } else if str_eq_lower(s, "mhpmcounter28h") {
        Some(0xB9C)
    } else if str_eq_lower(s, "mhpmcounter29h") {
        Some(0xB9D)
    } else if str_eq_lower(s, "mhpmcounter30h") {
        Some(0xB9E)
    } else if str_eq_lower(s, "mhpmcounter31h") {
        Some(0xB9F)
    } else if str_eq_lower(s, "mcountinhibit") {
        Some(0x320)
    } else if str_eq_lower(s, "mhpmevent3") {
        Some(0x323)
    } else if str_eq_lower(s, "mhpmevent4") {
        Some(0x324)
    } else if str_eq_lower(s, "mhpmevent5") {
        Some(0x325)
    } else if str_eq_lower(s, "mhpmevent6") {
        Some(0x326)
    } else if str_eq_lower(s, "mhpmevent7") {
        Some(0x327)
    } else if str_eq_lower(s, "mhpmevent8") {
        Some(0x328)
    } else if str_eq_lower(s, "mhpmevent9") {
        Some(0x329)
    } else if str_eq_lower(s, "mhpmevent10") {
        Some(0x32A)
    } else if str_eq_lower(s, "mhpmevent11") {
        Some(0x32B)
    } else if str_eq_lower(s, "mhpmevent12") {
        Some(0x32C)
    } else if str_eq_lower(s, "mhpmevent13") {
        Some(0x32D)
    } else if str_eq_lower(s, "mhpmevent14") {
        Some(0x32E)
    } else if str_eq_lower(s, "mhpmevent15") {
        Some(0x32F)
    } else if str_eq_lower(s, "mhpmevent16") {
        Some(0x330)
    } else if str_eq_lower(s, "mhpmevent17") {
        Some(0x331)
    } else if str_eq_lower(s, "mhpmevent18") {
        Some(0x332)
    } else if str_eq_lower(s, "mhpmevent19") {
        Some(0x333)
    } else if str_eq_lower(s, "mhpmevent20") {
        Some(0x334)
    } else if str_eq_lower(s, "mhpmevent21") {
        Some(0x335)
    } else if str_eq_lower(s, "mhpmevent22") {
        Some(0x336)
    } else if str_eq_lower(s, "mhpmevent23") {
        Some(0x337)
    } else if str_eq_lower(s, "mhpmevent24") {
        Some(0x338)
    } else if str_eq_lower(s, "mhpmevent25") {
        Some(0x339)
    } else if str_eq_lower(s, "mhpmevent26") {
        Some(0x33A)
    } else if str_eq_lower(s, "mhpmevent27") {
        Some(0x33B)
    } else if str_eq_lower(s, "mhpmevent28") {
        Some(0x33C)
    } else if str_eq_lower(s, "mhpmevent29") {
        Some(0x33D)
    } else if str_eq_lower(s, "mhpmevent30") {
        Some(0x33E)
    } else if str_eq_lower(s, "mhpmevent31") {
        Some(0x33F)
    } else if str_eq_lower(s, "mhpmevent3h") {
        Some(0x723)
    } else if str_eq_lower(s, "mhpmevent4h") {
        Some(0x724)
    } else if str_eq_lower(s, "mhpmevent5h") {
        Some(0x725)
    } else if str_eq_lower(s, "mhpmevent6h") {
        Some(0x726)
    } else if str_eq_lower(s, "mhpmevent7h") {
        Some(0x727)
    } else if str_eq_lower(s, "mhpmevent8h") {
        Some(0x728)
    } else if str_eq_lower(s, "mhpmevent9h") {
        Some(0x729)
    } else if str_eq_lower(s, "mhpmevent10h") {
        Some(0x72A)
    } else if str_eq_lower(s, "mhpmevent11h") {
        Some(0x72B)
    } else if str_eq_lower(s, "mhpmevent12h") {
        Some(0x72C)
    } else if str_eq_lower(s, "mhpmevent13h") {
        Some(0x72D)
    } else if str_eq_lower(s, "mhpmevent14h") {
        Some(0x72E)
    } else if str_eq_lower(s, "mhpmevent15h") {
        Some(0x72F)
    } else if str_eq_lower(s, "mhpmevent16h") {
        Some(0x730)
    } else if str_eq_lower(s, "mhpmevent17h") {
        Some(0x731)
    } else if str_eq_lower(s, "mhpmevent18h") {
        Some(0x732)
    } else if str_eq_lower(s, "mhpmevent19h") {
        Some(0x733)
    } else if str_eq_lower(s, "mhpmevent20h") {
        Some(0x734)
    } else if str_eq_lower(s, "mhpmevent21h") {
        Some(0x735)
    } else if str_eq_lower(s, "mhpmevent22h") {
        Some(0x736)
    } else if str_eq_lower(s, "mhpmevent23h") {
        Some(0x737)
    } else if str_eq_lower(s, "mhpmevent24h") {
        Some(0x738)
    } else if str_eq_lower(s, "mhpmevent25h") {
        Some(0x739)
    } else if str_eq_lower(s, "mhpmevent26h") {
        Some(0x73A)
    } else if str_eq_lower(s, "mhpmevent27h") {
        Some(0x73B)
    } else if str_eq_lower(s, "mhpmevent28h") {
        Some(0x73C)
    } else if str_eq_lower(s, "mhpmevent29h") {
        Some(0x73D)
    } else if str_eq_lower(s, "mhpmevent30h") {
        Some(0x73E)
    } else if str_eq_lower(s, "mhpmevent31h") {
        Some(0x73F)
    } else if str_eq_lower(s, "tselect") {
        Some(0x7A0)
    } else if str_eq_lower(s, "tdata1") {
        Some(0x7A1)
    } else if str_eq_lower(s, "tdata2") {
        Some(0x7A2)
    } else if str_eq_lower(s, "tdata3") {
        Some(0x7A3)
    } else if str_eq_lower(s, "mcontext") {
        Some(0x7A8)
    } else if str_eq_lower(s, "dcsr") {
        Some(0x7B0)
    } else if str_eq_lower(s, "dpc") {
        Some(0x7B1)
    } else if str_eq_lower(s, "dscratch0") {
        Some(0x7B2)
    } else if str_eq_lower(s, "dscratch1") {
        Some(0x7B3)
    } else {
        None
    }
}

} // verus!
